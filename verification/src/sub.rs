//! Subtraction of signed decimals.

use crate::signed_decimal::SignedDecimal;
use crate::value::SignedValue;
use std::ops::Sub;
use vstd::prelude::*;
use vstd::std_specs::ops::SubSpec;

verus! {

impl vstd::std_specs::ops::SubSpecImpl for SignedDecimal {
    open spec fn obeys_sub_spec() -> bool {
        true
    }

    /// The difference must fit the unsigned decimal: where the operands carry
    /// different tags, their magnitudes are added.
    open spec fn sub_req(self, rhs: SignedDecimal) -> bool {
        self@.minus(rhs@).fits()
    }

    open spec fn sub_spec(self, rhs: SignedDecimal) -> SignedDecimal {
        SignedDecimal::storing(self@.minus(rhs@))
    }
}

impl Sub for SignedDecimal {
    type Output = SignedDecimal;

    /// Subtracts by the tags of the operands, without negating either. Under
    /// different tags the magnitudes are added and the result keeps the tag
    /// of the left operand. Under the same tag the smaller magnitude is taken
    /// from the larger, which is found by comparing first; equal magnitudes
    /// give the canonical zero.
    fn sub(self, rhs: SignedDecimal) -> (difference: SignedDecimal)
        ensures
            difference@ == self@.minus(rhs@),
    {
        match (self, rhs) {
            (SignedDecimal::NonNegative(lhs), SignedDecimal::NonNegative(rhs)) => {
                if lhs.at_least(&rhs) {
                    SignedDecimal::NonNegative(lhs.minus(rhs))
                } else {
                    SignedDecimal::Negative(rhs.minus(lhs))
                }
            },
            (SignedDecimal::Negative(lhs), SignedDecimal::NonNegative(rhs)) => {
                SignedDecimal::Negative(lhs.plus(rhs))
            },
            (SignedDecimal::NonNegative(lhs), SignedDecimal::Negative(rhs)) => {
                SignedDecimal::NonNegative(lhs.plus(rhs))
            },
            (SignedDecimal::Negative(lhs), SignedDecimal::Negative(rhs)) => {
                if rhs.at_least(&lhs) {
                    SignedDecimal::NonNegative(rhs.minus(lhs))
                } else {
                    SignedDecimal::Negative(lhs.minus(rhs))
                }
            },
        }
    }
}

impl SignedDecimal {
    /// The difference, or `None` where it does not fit the unsigned decimal.
    /// That can only be where the operands carry different tags.
    pub fn checked_sub(self, rhs: SignedDecimal) -> (r: Option<SignedDecimal>)
        ensures
            r == if self.sub_req(rhs) {
                Some(self.sub_spec(rhs))
            } else {
                None
            },
    {
        let same_tag = self.is_negative() == rhs.is_negative();
        if !same_tag && self.magnitude().atomics > u128::MAX - rhs.magnitude().atomics {
            None
        } else {
            Some(self - rhs)
        }
    }

    /// Taking the canonical zero away changes nothing: `a - 0 == a`. This
    /// always fits, and it holds of a negative zero too.
    pub proof fn lemma_sub_zero(a: SignedDecimal, zero: SignedDecimal)
        requires
            zero@ == SignedValue::zero(),
        ensures
            a.sub_req(zero),
            a.sub_spec(zero) == a,
    {
        SignedValue::lemma_minus_zero(a@);
    }
}

} // verus!
