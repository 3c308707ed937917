use cosmwasm_std::{Decimal, StdError, Uint128};
use signed_decimal::cw_decimal::CwDecimal;
use signed_decimal::magnitude::{Magnitude, RatioError};
use signed_decimal::signed_decimal::SignedDecimal;

fn parsed(text: &str) -> SignedDecimal {
    SignedDecimal::from_str(text).unwrap()
}

fn non_negative(atomics: u128) -> SignedDecimal {
    SignedDecimal::NonNegative(Magnitude { atomics })
}

fn negative(atomics: u128) -> SignedDecimal {
    SignedDecimal::Negative(Magnitude { atomics })
}

#[test]
fn zero_and_one_hold_the_atomic_units_of_the_unsigned_decimal() {
    assert_eq!(SignedDecimal::zero(), non_negative(0));
    assert_eq!(SignedDecimal::one(), non_negative(1_000_000_000_000_000_000));
    assert_eq!(
        SignedDecimal::one().magnitude().atomics,
        Decimal::one().atomics().u128()
    );
}

#[test]
fn from_lifts_a_magnitude_as_non_negative() {
    let lifted = SignedDecimal::from(Magnitude { atomics: 42 });
    assert_eq!(lifted, non_negative(42));
    assert_eq!(lifted.is_negative(), false);
    assert_eq!(SignedDecimal::from(Magnitude { atomics: 0 }), SignedDecimal::zero());
}

#[test]
fn parsing_reads_atomic_units() {
    assert_eq!(parsed("5.73"), non_negative(5_730_000_000_000_000_000));
    assert_eq!(parsed("-5.73"), negative(5_730_000_000_000_000_000));
    assert_eq!(parsed("0.000000000000000001"), non_negative(1));
    assert_eq!(parsed("000012"), non_negative(12_000_000_000_000_000_000));
    assert_eq!(parsed("-1.123000000"), negative(1_123_000_000_000_000_000));
    assert_eq!(
        parsed("340282366920938463463.374607431768211455"),
        non_negative(u128::MAX)
    );
}

#[test]
fn parsing_agrees_with_the_unsigned_parser() {
    for text in ["0", "1", "5.73", "123.3123143901", "0.05399"] {
        let expected = text.parse::<Decimal>().unwrap().atomics().u128();
        assert_eq!(parsed(text), non_negative(expected));
        let with_minus = format!("-{}", text);
        assert_eq!(parsed(&with_minus), negative(expected));
    }
}

#[test]
fn parsing_fails_as_the_unsigned_parser_does() {
    for text in [
        "",
        "-",
        "--1",
        "abc",
        "-abc",
        ".23",
        "1.",
        "1.2.3",
        "- 1",
        " 1",
        "1.0000000000000000001",
        "340282366920938463464",
        "-340282366920938463463.374607431768211456",
    ] {
        let digits = text.strip_prefix('-').unwrap_or(text);
        let expected = digits.parse::<Decimal>().unwrap_err();
        assert_eq!(SignedDecimal::from_str(text).unwrap_err(), expected, "{:?}", text);
    }
}

#[test]
fn parsing_error_names_what_was_wrong() {
    assert_eq!(
        SignedDecimal::from_str("abc").unwrap_err(),
        StdError::generic_err("Error parsing whole")
    );
    assert_eq!(
        SignedDecimal::from_str("-1.x").unwrap_err(),
        StdError::generic_err("Error parsing fractional")
    );
    assert_eq!(
        SignedDecimal::from_str("1.2.3").unwrap_err(),
        StdError::generic_err("Unexpected number of dots")
    );
    assert_eq!(
        SignedDecimal::from_str("-340282366920938463464").unwrap_err(),
        StdError::generic_err("Value too big")
    );
}

#[test]
fn only_one_leading_minus_is_a_sign() {
    assert!(SignedDecimal::from_str("--1").is_err());
    assert!(SignedDecimal::from_str("1-").is_err());
    assert_eq!(parsed("-1").is_negative(), true);
}

#[test]
fn with_sign_tags_a_magnitude_and_hands_an_error_on() {
    let magnitude = Magnitude { atomics: 7 };
    assert_eq!(SignedDecimal::with_sign(true, Ok(magnitude)), Ok(negative(7)));
    assert_eq!(
        SignedDecimal::with_sign(false, Ok(magnitude)),
        Ok(non_negative(7))
    );
    assert_eq!(
        SignedDecimal::with_sign(true, Err(StdError::generic_err("no"))),
        Err(StdError::generic_err("no"))
    );
    assert_eq!(
        SignedDecimal::with_sign(false, Err(StdError::generic_err("no"))),
        Err(StdError::generic_err("no"))
    );
}

#[test]
fn text_drops_trailing_zeros_of_the_fraction() {
    assert_eq!(non_negative(1_500_000_000_000_000_000).to_string(), "1.5");
    assert_eq!(negative(1_500_000_000_000_000_000).to_string(), "-1.5");
    assert_eq!(non_negative(1).to_string(), "0.000000000000000001");
    assert_eq!(negative(2_000_000_000_000_000_000).to_string(), "-2");
    assert_eq!(non_negative(0).to_string(), "0");
    assert_eq!(negative(0).to_string(), "-0");
}

#[test]
fn is_zero_holds_of_the_canonical_zero_only() {
    assert_eq!(SignedDecimal::zero().is_zero(), true);
    assert_eq!(parsed("0.000").is_zero(), true);
    assert_eq!(SignedDecimal::one().is_zero(), false);
    assert_eq!(parsed("-1").is_zero(), false);
    assert_eq!(negative(0).is_zero(), false);
    assert_eq!(non_negative(1).is_zero(), false);
}

#[test]
fn is_positive_needs_a_magnitude_above_zero() {
    assert_eq!(non_negative(1).is_positive(), true);
    assert_eq!(non_negative(0).is_positive(), false);
    assert_eq!(negative(1).is_positive(), false);
    assert_eq!(negative(0).is_positive(), false);
}

#[test]
fn is_negative_goes_by_the_tag() {
    assert_eq!(negative(1).is_negative(), true);
    assert_eq!(negative(0).is_negative(), true);
    assert_eq!(non_negative(0).is_negative(), false);
    assert_eq!(non_negative(1).is_negative(), false);
}

#[test]
fn magnitude_is_the_absolute_value() {
    assert_eq!(parsed("-5.73").magnitude(), parsed("5.73").magnitude());
    assert_eq!(
        parsed("-5.73").magnitude(),
        Magnitude {
            atomics: 5_730_000_000_000_000_000
        }
    );
}

#[test]
fn with_magnitude_keeps_the_tag() {
    let three = Magnitude { atomics: 3 };
    assert_eq!(parsed("-5.73").with_magnitude(three), negative(3));
    assert_eq!(parsed("5.73").with_magnitude(three), non_negative(3));
    assert_eq!(negative(0).with_magnitude(three), negative(3));
}

#[test]
fn sqrt_keeps_the_tag() {
    assert_eq!(parsed("4").sqrt(), parsed("2"));
    assert_eq!(parsed("-4").sqrt(), parsed("-2"));
    assert_eq!(parsed("-9").sqrt(), parsed("-3"));
    assert_eq!(parsed("0.25").sqrt(), parsed("0.5"));
    assert_eq!(parsed("0").sqrt(), SignedDecimal::zero());
    assert_eq!(parsed("-0").sqrt(), negative(0));
}

#[test]
fn sqrt_rounds_as_the_unsigned_decimal_does() {
    assert_eq!(parsed("2").sqrt(), parsed("1.414213562373095048"));
    assert_eq!(parsed("-2").sqrt(), parsed("-1.414213562373095048"));
    let largest = non_negative(u128::MAX);
    assert_eq!(
        largest.sqrt().magnitude().atomics,
        Decimal::MAX.sqrt().atomics().u128()
    );
    assert_eq!(largest.sqrt(), non_negative(18_446_744_073_709_551_615_000_000_000));
}

#[test]
fn percent_is_a_hundredth() {
    assert_eq!(SignedDecimal::percent(50), parsed("0.5"));
    assert_eq!(SignedDecimal::percent(0), SignedDecimal::zero());
    assert_eq!(SignedDecimal::percent(1), non_negative(10_000_000_000_000_000));
    assert_eq!(SignedDecimal::percent(250), parsed("2.5"));
    assert_eq!(
        SignedDecimal::percent(u64::MAX),
        non_negative(184_467_440_737_095_516_150_000_000_000_000_000)
    );
}

#[test]
fn permille_is_a_thousandth() {
    assert_eq!(SignedDecimal::permille(500), parsed("0.5"));
    assert_eq!(SignedDecimal::permille(125), parsed("0.125"));
    assert_eq!(SignedDecimal::permille(1), non_negative(1_000_000_000_000_000));
    assert_eq!(
        SignedDecimal::permille(u64::MAX),
        non_negative(18_446_744_073_709_551_615_000_000_000_000_000)
    );
}

#[test]
fn from_ratio_rounds_down() {
    assert_eq!(SignedDecimal::from_ratio(1, 2), Ok(parsed("0.5")));
    assert_eq!(
        SignedDecimal::from_ratio(1, 3),
        Ok(non_negative(333_333_333_333_333_333))
    );
    assert_eq!(
        SignedDecimal::from_ratio(2, 3),
        Ok(non_negative(666_666_666_666_666_666))
    );
    assert_eq!(SignedDecimal::from_ratio(0, 7), Ok(SignedDecimal::zero()));
    assert_eq!(SignedDecimal::from_ratio(7, 7), Ok(SignedDecimal::one()));
    assert_eq!(
        SignedDecimal::from_ratio(u128::MAX, u128::MAX),
        Ok(SignedDecimal::one())
    );
    assert_eq!(
        SignedDecimal::from_ratio(u128::MAX, 1_000_000_000_000_000_000),
        Ok(non_negative(u128::MAX))
    );
    assert_eq!(
        SignedDecimal::from_ratio(5, 4).unwrap().magnitude().atomics,
        Decimal::from_ratio(Uint128::new(5), Uint128::new(4))
            .atomics()
            .u128()
    );
}

#[test]
fn from_ratio_fails_on_a_zero_denominator() {
    assert_eq!(
        SignedDecimal::from_ratio(1, 0),
        Err(RatioError::DivideByZero)
    );
    assert_eq!(
        SignedDecimal::from_ratio(0, 0),
        Err(RatioError::DivideByZero)
    );
}

#[test]
fn from_ratio_fails_on_a_ratio_too_large() {
    assert_eq!(
        SignedDecimal::from_ratio(u128::MAX, 1),
        Err(RatioError::Overflow)
    );
    assert_eq!(
        SignedDecimal::from_ratio(340_282_366_920_938_463_464, 1),
        Err(RatioError::Overflow)
    );
    assert_eq!(
        SignedDecimal::from_ratio(340_282_366_920_938_463_463, 1),
        Ok(parsed("340282366920938463463"))
    );
}

#[test]
fn checked_add_is_none_where_the_magnitudes_overflow() {
    let largest = non_negative(u128::MAX);
    let least = negative(u128::MAX);
    assert_eq!(largest.checked_add(non_negative(1)), None);
    assert_eq!(least.checked_add(negative(1)), None);
    assert_eq!(largest.checked_add(non_negative(0)), Some(largest));
    assert_eq!(largest.checked_add(negative(1)), Some(non_negative(u128::MAX - 1)));
    assert_eq!(largest.checked_add(least), Some(SignedDecimal::zero()));
    assert_eq!(
        parsed("5.73").checked_add(parsed("-5.71")),
        Some(parsed("0.02"))
    );
}

#[test]
fn checked_sub_is_none_where_the_magnitudes_overflow() {
    let largest = non_negative(u128::MAX);
    let least = negative(u128::MAX);
    assert_eq!(largest.checked_sub(negative(1)), None);
    assert_eq!(least.checked_sub(non_negative(1)), None);
    assert_eq!(largest.checked_sub(non_negative(1)), Some(non_negative(u128::MAX - 1)));
    assert_eq!(least.checked_sub(least), Some(SignedDecimal::zero()));
    assert_eq!(
        parsed("-5.73").checked_sub(parsed("-5.71")),
        Some(parsed("-0.02"))
    );
}

#[test]
fn checked_sum_is_none_where_a_running_total_overflows() {
    let largest = non_negative(u128::MAX);
    let least = negative(u128::MAX);
    assert_eq!(
        SignedDecimal::checked_sum(vec![largest, non_negative(1), least]),
        None
    );
    assert_eq!(
        SignedDecimal::checked_sum(vec![largest, least, non_negative(1)]),
        Some(non_negative(1))
    );
    assert_eq!(
        SignedDecimal::sum(vec![largest, least, non_negative(1)]),
        non_negative(1)
    );
}

#[test]
fn subtraction_takes_the_smaller_magnitude_from_the_larger() {
    assert_eq!(non_negative(3) - non_negative(5), negative(2));
    assert_eq!(non_negative(5) - non_negative(3), non_negative(2));
    assert_eq!(negative(3) - negative(5), non_negative(2));
    assert_eq!(negative(5) - negative(3), negative(2));
    assert_eq!(non_negative(0) - non_negative(u128::MAX), negative(u128::MAX));
    assert_eq!(negative(3) - non_negative(5), negative(8));
    assert_eq!(non_negative(3) - negative(5), non_negative(8));
}

#[test]
fn addition_takes_the_smaller_magnitude_from_the_larger() {
    assert_eq!(non_negative(3) + negative(5), negative(2));
    assert_eq!(non_negative(5) + negative(3), non_negative(2));
    assert_eq!(negative(3) + non_negative(5), non_negative(2));
    assert_eq!(negative(5) + non_negative(3), negative(2));
    assert_eq!(negative(u128::MAX) + non_negative(0), negative(u128::MAX));
    assert_eq!(non_negative(3) + non_negative(5), non_negative(8));
    assert_eq!(negative(3) + negative(5), negative(8));
}
