//! Addition of signed decimals.

use crate::signed_decimal::SignedDecimal;
use crate::value::SignedValue;
use std::ops::Add;
use vstd::prelude::*;
use vstd::std_specs::ops::AddSpec;

verus! {

impl vstd::std_specs::ops::AddSpecImpl for SignedDecimal {
    open spec fn obeys_add_spec() -> bool {
        true
    }

    /// The sum must fit the unsigned decimal: where both operands carry the
    /// same tag, their magnitudes are added.
    open spec fn add_req(self, rhs: SignedDecimal) -> bool {
        self@.plus(rhs@).fits()
    }

    open spec fn add_spec(self, rhs: SignedDecimal) -> SignedDecimal {
        SignedDecimal::storing(self@.plus(rhs@))
    }
}

impl Add for SignedDecimal {
    type Output = SignedDecimal;

    /// Adds by the tags of the operands. Two magnitudes under the same tag
    /// are added and keep the tag. Under different tags the smaller magnitude
    /// is taken from the larger, which is found by comparing first, and the
    /// result carries the tag of the larger; equal magnitudes give the
    /// canonical zero.
    fn add(self, rhs: SignedDecimal) -> (sum: SignedDecimal)
        ensures
            sum@ == self@.plus(rhs@),
    {
        match (self, rhs) {
            (SignedDecimal::NonNegative(lhs), SignedDecimal::NonNegative(rhs)) => {
                SignedDecimal::NonNegative(lhs.plus(rhs))
            },
            (SignedDecimal::Negative(lhs), SignedDecimal::NonNegative(rhs)) => {
                if rhs.at_least(&lhs) {
                    SignedDecimal::NonNegative(rhs.minus(lhs))
                } else {
                    SignedDecimal::Negative(lhs.minus(rhs))
                }
            },
            (SignedDecimal::NonNegative(lhs), SignedDecimal::Negative(rhs)) => {
                if lhs.at_least(&rhs) {
                    SignedDecimal::NonNegative(lhs.minus(rhs))
                } else {
                    SignedDecimal::Negative(rhs.minus(lhs))
                }
            },
            (SignedDecimal::Negative(lhs), SignedDecimal::Negative(rhs)) => {
                SignedDecimal::Negative(lhs.plus(rhs))
            },
        }
    }
}

impl SignedDecimal {
    /// The sum, or `None` where it does not fit the unsigned decimal. That
    /// can only be where both operands carry the same tag.
    pub fn checked_add(self, rhs: SignedDecimal) -> (r: Option<SignedDecimal>)
        ensures
            r == if self.add_req(rhs) {
                Some(self.add_spec(rhs))
            } else {
                None
            },
    {
        let same_tag = self.is_negative() == rhs.is_negative();
        if same_tag && self.magnitude().atomics > u128::MAX - rhs.magnitude().atomics {
            None
        } else {
            Some(self + rhs)
        }
    }

    /// Addition is commutative: `a + b == b + a`, and the one fits where the
    /// other does.
    pub proof fn lemma_add_commutative(a: SignedDecimal, b: SignedDecimal)
        ensures
            a.add_req(b) == b.add_req(a),
            a.add_spec(b) == b.add_spec(a),
    {
        SignedValue::lemma_plus_commutative(a@, b@);
    }

    /// The canonical zero is the identity of addition: `a + 0 == a` and
    /// `0 + a == a`, and both always fit. The one exception is a negative
    /// zero, which adding the canonical zero turns into the canonical zero.
    pub proof fn lemma_add_zero(a: SignedDecimal, zero: SignedDecimal)
        requires
            zero@ == SignedValue::zero(),
            !(a@.negative && a@.magnitude == 0),
        ensures
            a.add_req(zero),
            a.add_spec(zero) == a,
            zero.add_req(a),
            zero.add_spec(a) == a,
    {
        SignedValue::lemma_plus_zero(a@);
    }
}

} // verus!
