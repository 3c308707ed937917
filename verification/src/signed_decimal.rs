//! The signed decimal: a magnitude tagged non-negative or negative.

use crate::cw_decimal::CwDecimal;
use crate::magnitude::{decimal_sqrt, ratio_magnitude, Magnitude, RatioError};
use crate::magnitude::{ATOMICS_PER_PERCENT, ATOMICS_PER_PERMILLE};
use crate::magnitude::{MAX_MAGNITUDE_TEXT_LEN, MAX_TEXT_LEN};
use crate::value::SignedValue;
use cosmwasm_std::StdError;
use vstd::prelude::*;
use vstd::std_specs::convert::FromSpecImpl;
use vstd::string::*;

verus! {

/// A decimal that may be negative. `Negative` holds the absolute value.
///
/// The canonical zero is `NonNegative` of zero. `Negative` of zero can be
/// written down and is a different value: it is what `"-0"` parses to, it is
/// negative by [`SignedDecimal::is_negative`], and it is not zero by
/// `is_zero`. Arithmetic gives it only as the sum of two negative zeros, or
/// as the difference of a negative zero and the canonical zero.
#[derive(Clone, Copy, Debug, PartialEq, Eq, Structural)]
pub enum SignedDecimal {
    NonNegative(Magnitude),
    Negative(Magnitude),
}

impl View for SignedDecimal {
    type V = SignedValue;

    open spec fn view(&self) -> SignedValue {
        match *self {
            SignedDecimal::NonNegative(m) => SignedValue {
                negative: false,
                magnitude: m.atomics as nat,
            },
            SignedDecimal::Negative(m) => SignedValue { negative: true, magnitude: m.atomics as nat },
        }
    }
}

impl SignedDecimal {
    /// The decimal that stores `value`. Where `value` does not fit, the
    /// magnitude is unspecified.
    pub open spec fn storing(value: SignedValue) -> SignedDecimal
        recommends
            value.fits(),
    {
        if value.negative {
            SignedDecimal::Negative(Magnitude { atomics: value.magnitude as u128 })
        } else {
            SignedDecimal::NonNegative(Magnitude { atomics: value.magnitude as u128 })
        }
    }

    /// The models of a sequence of decimals, one for one.
    pub open spec fn views(values: Seq<SignedDecimal>) -> Seq<SignedValue> {
        values.map_values(|d: SignedDecimal| d@)
    }

    /// The canonical zero, `NonNegative` of `Decimal::zero()`.
    pub fn zero() -> (r: SignedDecimal)
        ensures
            r@ == SignedValue::zero(),
    {
        SignedDecimal::NonNegative(Magnitude::zero())
    }

    /// One, `NonNegative` of `Decimal::one()`.
    pub fn one() -> (r: SignedDecimal)
        ensures
            r@ == SignedValue::one(),
    {
        SignedDecimal::NonNegative(Magnitude::one())
    }

    /// The magnitude under the tag: the absolute value.
    pub fn magnitude(&self) -> (m: Magnitude)
        ensures
            m.atomics == self@.magnitude,
    {
        match self {
            SignedDecimal::NonNegative(n) => *n,
            SignedDecimal::Negative(n) => *n,
        }
    }

    /// The decimal of the given magnitude under the tag of `self`.
    pub fn with_magnitude(&self, magnitude: Magnitude) -> (r: SignedDecimal)
        ensures
            r@.negative == self@.negative,
            r@.magnitude == magnitude.atomics,
    {
        match self {
            SignedDecimal::NonNegative(_) => SignedDecimal::NonNegative(magnitude),
            SignedDecimal::Negative(_) => SignedDecimal::Negative(magnitude),
        }
    }

    /// Whether the value is above zero: tagged non-negative, with a magnitude
    /// that is not zero.
    pub fn is_positive(&self) -> (r: bool)
        ensures
            r == (!self@.negative && self@.magnitude != 0),
    {
        if let SignedDecimal::NonNegative(n) = self {
            !n.is_zero()
        } else {
            false
        }
    }

    /// Whether the value is tagged negative, whatever its magnitude: a
    /// negative zero is negative.
    pub fn is_negative(&self) -> (r: bool)
        ensures
            r == self@.negative,
    {
        if let SignedDecimal::Negative(_) = self {
            true
        } else {
            false
        }
    }

    /// Reads a signed decimal from text. A leading `-` sets the negative tag
    /// and is dropped; the rest goes to the parser of the unsigned decimal,
    /// whose error comes back unchanged. So `"-0"` reads as a negative zero.
    ///
    /// The text may have up to [`MAX_TEXT_LEN`] characters, about a billion.
    pub fn from_str(s: &str) -> (r: Result<SignedDecimal, StdError>)
        requires
            s@.len() <= MAX_TEXT_LEN,
        ensures
            r is Ok <==> SignedValue::parse(s@) is Some,
            r matches Ok(d) ==> SignedValue::parse(s@) == Some(d@),
    {
        let length = s.unicode_len();
        let is_negative = length > 0 && s.get_char(0) == '-';
        let digits = if is_negative {
            s.substring_char(1, length)
        } else {
            s
        };
        SignedDecimal::with_sign(is_negative, Magnitude::parse(digits))
    }

    /// Tags what the unsigned parser returned: a magnitude becomes `Negative`
    /// where `is_negative` is set and `NonNegative` where it is not; an error
    /// is handed on as it is.
    pub fn with_sign(is_negative: bool, parsed: Result<Magnitude, StdError>) -> (r: Result<
        SignedDecimal,
        StdError,
    >)
        ensures
            match parsed {
                Ok(magnitude) => r matches Ok(d) && d@.negative == is_negative && d@.magnitude
                    == magnitude.atomics,
                Err(e) => r == Err::<SignedDecimal, StdError>(e),
            },
    {
        match parsed {
            Ok(magnitude) => {
                if is_negative {
                    Ok(SignedDecimal::Negative(magnitude))
                } else {
                    Ok(SignedDecimal::NonNegative(magnitude))
                }
            },
            Err(e) => Err(e),
        }
    }

    /// Writes the decimal as text: the text of the magnitude, behind a `-`
    /// where the tag is `Negative`. Reading the text with
    /// [`SignedDecimal::from_str`] gives the decimal back, tag included.
    pub fn to_string(&self) -> (text: String)
        ensures
            text@ == self@.text(),
            text@.len() <= MAX_MAGNITUDE_TEXT_LEN + 1,
            SignedValue::parse(text@) == Some(self@),
    {
        match self {
            SignedDecimal::NonNegative(n) => n.text(),
            SignedDecimal::Negative(n) => {
                let digits = n.text();
                let text = String::from_str("-").concat(digits.as_str());
                proof {
                    reveal_strlit("-");
                    assert("-"@ =~= seq!['-']);
                    assert(text@.subrange(1, text@.len() as int) =~= digits@);
                }
                text
            },
        }
    }

    /// The sum of `values`, added up from the left, starting at the canonical
    /// zero. Every running total on the way must fit the unsigned decimal.
    /// The result does not depend on the order of `values`, see
    /// [`SignedDecimal::lemma_sum_any_order`].
    pub fn sum(values: Vec<SignedDecimal>) -> (total: SignedDecimal)
        requires
            SignedValue::sums_fit(SignedDecimal::views(values@)),
        ensures
            total@ == SignedValue::sum(SignedDecimal::views(values@)),
    {
        let ghost models = SignedDecimal::views(values@);
        let mut total = SignedDecimal::zero();
        let mut i: usize = 0;
        assert(models.take(0) =~= Seq::<SignedValue>::empty());
        while i < values.len()
            invariant
                0 <= i <= values.len(),
                models == SignedDecimal::views(values@),
                models.len() == values.len(),
                SignedValue::sums_fit(models),
                total@ == SignedValue::sum(models.take(i as int)),
            decreases values.len() - i,
        {
            proof {
                let next = models.take(i + 1);
                assert(next.drop_last() =~= models.take(i as int));
                assert(next.last() == values@[i as int]@);
                assert(SignedValue::sum(next).fits());
            }
            total = total + values[i];
            i += 1;
        }
        assert(models.take(i as int) =~= models);
        total
    }

    /// The sum of `values` as [`SignedDecimal::sum`] adds it up, or `None`
    /// where a running total on the way does not fit the unsigned decimal.
    pub fn checked_sum(values: Vec<SignedDecimal>) -> (r: Option<SignedDecimal>)
        ensures
            r == if SignedValue::sums_fit(SignedDecimal::views(values@)) {
                Some(SignedDecimal::storing(SignedValue::sum(SignedDecimal::views(values@))))
            } else {
                None
            },
    {
        let ghost models = SignedDecimal::views(values@);
        let mut total = SignedDecimal::zero();
        let mut i: usize = 0;
        assert(models.take(0) =~= Seq::<SignedValue>::empty());
        while i < values.len()
            invariant
                0 <= i <= values.len(),
                models == SignedDecimal::views(values@),
                models.len() == values.len(),
                total@ == SignedValue::sum(models.take(i as int)),
                forall|k: int| 0 <= k <= i ==> (#[trigger] SignedValue::sum(models.take(k))).fits(),
            decreases values.len() - i,
        {
            proof {
                let next = models.take(i + 1);
                assert(next.drop_last() =~= models.take(i as int));
                assert(next.last() == values@[i as int]@);
            }
            match total.checked_add(values[i]) {
                Some(next) => {
                    total = next;
                },
                None => {
                    assert(!SignedValue::sum(models.take(i + 1)).fits());
                    return None;
                },
            }
            i += 1;
        }
        assert(models.take(i as int) =~= models);
        Some(total)
    }

    /// The sum of a sequence does not depend on its order: two sequences that
    /// hold the same decimals the same number of times have the same sum.
    pub proof fn lemma_sum_any_order(a: Seq<SignedDecimal>, b: Seq<SignedDecimal>)
        requires
            a.to_multiset() == b.to_multiset(),
        ensures
            SignedValue::sum(SignedDecimal::views(a)) == SignedValue::sum(SignedDecimal::views(b)),
    {
        SignedDecimal::lemma_views_rearranged(a, b);
        SignedValue::lemma_sum_any_order(SignedDecimal::views(a), SignedDecimal::views(b));
    }

    /// Rearranging decimals rearranges their models.
    proof fn lemma_views_rearranged(a: Seq<SignedDecimal>, b: Seq<SignedDecimal>)
        requires
            a.to_multiset() == b.to_multiset(),
        ensures
            SignedDecimal::views(a).to_multiset() == SignedDecimal::views(b).to_multiset(),
        decreases a.len(),
    {
        broadcast use vstd::seq_lib::group_to_multiset_ensures;

        if a.len() == 0 {
            assert(b.len() == 0) by {
                a.to_multiset_ensures();
                b.to_multiset_ensures();
            }
            assert(SignedDecimal::views(a) =~= SignedDecimal::views(b));
        } else {
            let x = a.last();
            assert(a.contains(x));
            assert(b.to_multiset().count(x) > 0);
            let i = b.index_of(x);
            assert(a.drop_last() =~= a.remove(a.len() - 1));
            SignedDecimal::lemma_views_rearranged(a.drop_last(), b.remove(i));
            assert(SignedDecimal::views(a) =~= SignedDecimal::views(a.drop_last()).push(x@));
            assert(SignedDecimal::views(b.remove(i)) =~= SignedDecimal::views(b).remove(i));
            assert(SignedDecimal::views(b)[i] == x@);
            assert(SignedDecimal::views(b).to_multiset() =~= SignedDecimal::views(b).remove(
                i,
            ).to_multiset().insert(x@));
        }
    }
}

impl CwDecimal for SignedDecimal {
    type CwInt = u128;

    /// Whether this is the canonical zero. A negative zero is not.
    fn is_zero(&self) -> (r: bool)
        ensures
            r == (self@ == SignedValue::zero()),
    {
        match self {
            SignedDecimal::NonNegative(n) => n.is_zero(),
            _ => false,
        }
    }

    /// The square root of the magnitude, as `Decimal::sqrt` approximates it,
    /// under the tag of `self`: the root of a negative decimal is negative.
    fn sqrt(&self) -> (r: SignedDecimal)
        ensures
            r@.negative == self@.negative,
            r@.magnitude == decimal_sqrt(self@.magnitude),
    {
        self.with_magnitude(self.magnitude().sqrt())
    }

    /// `x` percent. Never negative.
    fn percent(x: u64) -> (r: SignedDecimal)
        ensures
            !r@.negative,
            r@.magnitude == x * ATOMICS_PER_PERCENT,
    {
        SignedDecimal::NonNegative(Magnitude::percent(x))
    }

    /// `x` permille. Never negative.
    fn permille(x: u64) -> (r: SignedDecimal)
        ensures
            !r@.negative,
            r@.magnitude == x * ATOMICS_PER_PERMILLE,
    {
        SignedDecimal::NonNegative(Magnitude::permille(x))
    }

    /// The ratio of two integers, rounded down to the atomic unit. Never
    /// negative. Fails as the unsigned decimal does: on a zero denominator,
    /// and on a ratio of 2^128 atomic units or more.
    fn from_ratio(numerator: u128, denominator: u128) -> (r: Result<SignedDecimal, RatioError>)
        ensures
            match ratio_magnitude(numerator, denominator) {
                Ok(magnitude) => r == Ok::<SignedDecimal, RatioError>(
                    SignedDecimal::NonNegative(magnitude),
                ),
                Err(e) => r == Err::<SignedDecimal, RatioError>(e),
            },
    {
        match Magnitude::checked_from_ratio(numerator, denominator) {
            Ok(magnitude) => Ok(SignedDecimal::NonNegative(magnitude)),
            Err(e) => Err(e),
        }
    }
}

impl FromSpecImpl<Magnitude> for SignedDecimal {
    open spec fn obeys_from_spec() -> bool {
        true
    }

    open spec fn from_spec(n: Magnitude) -> SignedDecimal {
        SignedDecimal::NonNegative(n)
    }
}

impl From<Magnitude> for SignedDecimal {
    /// Lifts a magnitude: always `NonNegative`. A negative value comes only
    /// from reading text or from arithmetic.
    fn from(n: Magnitude) -> (r: SignedDecimal) {
        SignedDecimal::NonNegative(n)
    }
}

} // verus!
