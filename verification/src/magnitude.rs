//! The unsigned decimal, held as plain atomic units, and every call that this
//! crate makes into `cosmwasm_std::Decimal`.
//!
//! The functions marked `external_body` are the trusted boundary: their bodies
//! rebuild a `Decimal` from atomic units, make one call, and hand atomic units
//! back. Their contracts are believed, not proved.

use cosmwasm_std::{CheckedFromRatioError, Decimal, StdError, Uint128};
use std::str::FromStr;
use vstd::prelude::*;

verus! {

/// Atomic units in one whole: a decimal carries 18 fractional digits.
pub const ATOMICS_PER_ONE: u128 = 1_000_000_000_000_000_000;

/// Atomic units in one percent.
pub const ATOMICS_PER_PERCENT: u128 = 10_000_000_000_000_000;

/// Atomic units in one permille.
pub const ATOMICS_PER_PERMILLE: u128 = 1_000_000_000_000_000;

/// The longest text, in characters, that may be handed to the decimal parser.
/// The parser takes the byte length of the fraction as a `u32`. A character
/// has at most four bytes, so no length up to this bound wraps.
pub const MAX_TEXT_LEN: usize = 0x3fff_ffff;

/// The longest text, in characters, that a magnitude is written as: 21 digits
/// of the whole part, a dot, and 18 fractional digits.
pub const MAX_MAGNITUDE_TEXT_LEN: usize = 40;

/// `cosmwasm_std::StdError`, the error of the decimal parser. It is carried
/// through unopened.
#[verifier::external_type_specification]
#[verifier::external_body]
pub struct ExStdError(StdError);

/// A non-negative decimal with 18 fractional digits. `atomics` counts units of
/// 10^-18, so the decimal 1.5 has `atomics == 1_500_000_000_000_000_000`. This
/// is the number that `cosmwasm_std::Decimal` stores.
#[derive(Clone, Copy, Debug, PartialEq, Eq, Structural)]
pub struct Magnitude {
    pub atomics: u128,
}

/// Why a ratio is not a decimal.
#[derive(Clone, Copy, Debug, PartialEq, Eq, Structural)]
pub enum RatioError {
    /// The denominator is zero.
    DivideByZero,
    /// The quotient has more atomic units than a decimal can hold.
    Overflow,
}

/// The atomic units of the decimal that `Decimal::from_str` reads from `text`,
/// or `None` where it rejects `text`.
pub uninterp spec fn decimal_parse(text: Seq<char>) -> Option<nat>;

/// The text that `Decimal`'s `Display` writes for a decimal of `atomics` units.
pub uninterp spec fn decimal_text(atomics: nat) -> Seq<char>;

/// The atomic units of `Decimal::sqrt` of a decimal of `atomics` units.
pub uninterp spec fn decimal_sqrt(atomics: nat) -> nat;

/// The atomic units of `numerator / denominator`, rounded down.
pub open spec fn ratio_atomics(numerator: u128, denominator: u128) -> int
    recommends
        denominator != 0,
{
    (numerator as int * ATOMICS_PER_ONE as int) / (denominator as int)
}

/// The decimal nearest below `numerator / denominator`, or why there is none.
pub open spec fn ratio_magnitude(numerator: u128, denominator: u128) -> Result<
    Magnitude,
    RatioError,
> {
    if denominator == 0 {
        Err(RatioError::DivideByZero)
    } else if ratio_atomics(numerator, denominator) > u128::MAX {
        Err(RatioError::Overflow)
    } else {
        Ok(Magnitude { atomics: ratio_atomics(numerator, denominator) as u128 })
    }
}

impl Magnitude {
    /// Calls `Decimal::zero`, which holds no atomic units.
    #[verifier::external_body]
    pub(crate) fn zero() -> (m: Magnitude)
        ensures
            m.atomics == 0,
    {
        Magnitude { atomics: Decimal::zero().atomics().u128() }
    }

    /// Calls `Decimal::one`, which holds 10^18 atomic units.
    #[verifier::external_body]
    pub(crate) fn one() -> (m: Magnitude)
        ensures
            m.atomics == ATOMICS_PER_ONE,
    {
        Magnitude { atomics: Decimal::one().atomics().u128() }
    }

    /// Calls `Decimal::percent`, which multiplies `x` by 10^16 in `u128`; the
    /// product of a `u64` and 10^16 always fits.
    #[verifier::external_body]
    pub(crate) fn percent(x: u64) -> (m: Magnitude)
        ensures
            m.atomics == x * ATOMICS_PER_PERCENT,
    {
        Magnitude { atomics: Decimal::percent(x).atomics().u128() }
    }

    /// Calls `Decimal::permille`, which multiplies `x` by 10^15 in `u128`; the
    /// product of a `u64` and 10^15 always fits.
    #[verifier::external_body]
    pub(crate) fn permille(x: u64) -> (m: Magnitude)
        ensures
            m.atomics == x * ATOMICS_PER_PERMILLE,
    {
        Magnitude { atomics: Decimal::permille(x).atomics().u128() }
    }

    /// Calls `Decimal::checked_from_ratio`. It rejects a zero denominator,
    /// computes `numerator * 10^18 / denominator` in 256 bits, rounded down,
    /// and rejects a quotient that does not fit in 128 bits.
    #[verifier::external_body]
    pub(crate) fn checked_from_ratio(numerator: u128, denominator: u128) -> (r: Result<
        Magnitude,
        RatioError,
    >)
        ensures
            r == ratio_magnitude(numerator, denominator),
    {
        match Decimal::checked_from_ratio(numerator, denominator) {
            Ok(d) => Ok(Magnitude { atomics: d.atomics().u128() }),
            Err(CheckedFromRatioError::DivideByZero) => Err(RatioError::DivideByZero),
            Err(CheckedFromRatioError::Overflow) => Err(RatioError::Overflow),
        }
    }

    /// Calls `Decimal::is_zero`, which tests the atomic units against zero.
    #[verifier::external_body]
    pub(crate) fn is_zero(&self) -> (r: bool)
        ensures
            r == (self.atomics == 0),
    {
        Decimal::new(Uint128::new(self.atomics)).is_zero()
    }

    /// Calls `Decimal::sqrt`, which never panics. The result is a function of
    /// the atomic units alone; nothing more is claimed of it.
    #[verifier::external_body]
    pub(crate) fn sqrt(&self) -> (m: Magnitude)
        ensures
            m.atomics == decimal_sqrt(self.atomics as nat),
    {
        Magnitude { atomics: Decimal::new(Uint128::new(self.atomics)).sqrt().atomics().u128() }
    }

    /// Calls `Decimal`'s `+`, which adds the atomic units and panics where the
    /// sum does not fit in 128 bits.
    #[verifier::external_body]
    pub(crate) fn plus(self, other: Magnitude) -> (m: Magnitude)
        requires
            self.atomics + other.atomics <= u128::MAX,
        ensures
            m.atomics == self.atomics + other.atomics,
    {
        let sum = Decimal::new(Uint128::new(self.atomics)) + Decimal::new(Uint128::new(other.atomics));
        Magnitude { atomics: sum.atomics().u128() }
    }

    /// Calls `Decimal`'s `-`, which subtracts the atomic units and panics
    /// where `other` is the larger.
    #[verifier::external_body]
    pub(crate) fn minus(self, other: Magnitude) -> (m: Magnitude)
        requires
            self.atomics >= other.atomics,
        ensures
            m.atomics == self.atomics - other.atomics,
    {
        let difference = Decimal::new(Uint128::new(self.atomics)) - Decimal::new(
            Uint128::new(other.atomics),
        );
        Magnitude { atomics: difference.atomics().u128() }
    }

    /// Calls `Decimal`'s `>=`, which orders decimals by their atomic units.
    #[verifier::external_body]
    pub(crate) fn at_least(&self, other: &Magnitude) -> (r: bool)
        ensures
            r == (self.atomics >= other.atomics),
    {
        Decimal::new(Uint128::new(self.atomics)) >= Decimal::new(Uint128::new(other.atomics))
    }

    /// Calls `Decimal::from_str`. Whether it accepts `text`, and the decimal
    /// it then reads, depend on `text` alone. It does not panic on a text
    /// whose fraction has a byte length that fits a `u32`.
    #[verifier::external_body]
    pub(crate) fn parse(text: &str) -> (r: Result<Magnitude, StdError>)
        requires
            text@.len() <= MAX_TEXT_LEN,
        ensures
            r is Ok <==> decimal_parse(text@) is Some,
            r matches Ok(m) ==> decimal_parse(text@) == Some(m.atomics as nat),
    {
        match Decimal::from_str(text) {
            Ok(d) => Ok(Magnitude { atomics: d.atomics().u128() }),
            Err(e) => Err(e),
        }
    }

    /// Calls `Decimal`'s `to_string`. `Display` writes the whole part in
    /// decimal digits, at most 21 of them, so the text is not empty and
    /// starts with a digit; it then writes, where the fraction is not zero, a
    /// dot and the 18 fractional digits without their trailing zeros.
    /// `Decimal::from_str` reads exactly this decimal back from such a text.
    #[verifier::external_body]
    pub(crate) fn text(&self) -> (s: String)
        ensures
            s@ == decimal_text(self.atomics as nat),
            0 < s@.len() <= MAX_MAGNITUDE_TEXT_LEN,
            s@[0] != '-',
            decimal_parse(s@) == Some(self.atomics as nat),
    {
        Decimal::new(Uint128::new(self.atomics)).to_string()
    }
}

} // verus!
