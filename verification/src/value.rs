//! The mathematical model of a signed decimal, and the laws of its arithmetic.
//!
//! A [`SignedValue`] is a sign tag and an unbounded magnitude. The contracts of
//! the executable type are stated over it, so that they read the same whether
//! or not a result would fit the 128 bits of a stored magnitude.

use crate::magnitude::{decimal_parse, decimal_text, ATOMICS_PER_ONE};
use vstd::prelude::*;
use vstd::seq_lib::{commutative_foldl, lemma_fold_left_permutation};

verus! {

/// What a signed decimal stands for: `magnitude` atomic units of 10^-18, tagged
/// negative or not. A negative tag on a zero magnitude is a value of its own,
/// apart from the canonical zero, which is tagged non-negative.
pub struct SignedValue {
    pub negative: bool,
    pub magnitude: nat,
}

impl SignedValue {
    /// The signed number of atomic units.
    pub open spec fn amount(self) -> int {
        if self.negative {
            -(self.magnitude as int)
        } else {
            self.magnitude as int
        }
    }

    /// Whether the magnitude fits the 128 bits of a stored decimal.
    pub open spec fn fits(self) -> bool {
        self.magnitude <= u128::MAX
    }

    /// The canonical zero: no atomic units, tagged non-negative.
    pub open spec fn zero() -> SignedValue {
        SignedValue { negative: false, magnitude: 0 }
    }

    /// One whole, tagged non-negative.
    pub open spec fn one() -> SignedValue {
        SignedValue { negative: false, magnitude: ATOMICS_PER_ONE as nat }
    }

    /// The value of `amount` atomic units under the given tag.
    pub open spec fn tagged(negative: bool, amount: int) -> SignedValue {
        SignedValue {
            negative,
            magnitude: (if amount < 0 {
                -amount
            } else {
                amount
            }) as nat,
        }
    }

    /// The sum. Its amount is the sum of the amounts. It is tagged negative
    /// where that amount is below zero, and also where both operands are
    /// tagged negative, so that two negative zeros add up to a negative zero.
    pub open spec fn plus(self, rhs: SignedValue) -> SignedValue {
        let amount = self.amount() + rhs.amount();
        SignedValue::tagged(amount < 0 || (self.negative && rhs.negative), amount)
    }

    /// The difference. Its amount is the difference of the amounts. It is
    /// tagged negative where that amount is below zero, and also where a value
    /// tagged non-negative is taken from one tagged negative.
    pub open spec fn minus(self, rhs: SignedValue) -> SignedValue {
        let amount = self.amount() - rhs.amount();
        SignedValue::tagged(amount < 0 || (self.negative && !rhs.negative), amount)
    }

    /// One step of a running total.
    pub open spec fn accumulate() -> spec_fn(SignedValue, SignedValue) -> SignedValue {
        |total: SignedValue, next: SignedValue| total.plus(next)
    }

    /// The running total of `values`, added up from the left, starting at the
    /// canonical zero.
    pub open spec fn sum(values: Seq<SignedValue>) -> SignedValue {
        values.fold_left(SignedValue::zero(), SignedValue::accumulate())
    }

    /// The amounts of `values`, added up as integers.
    pub open spec fn total(values: Seq<SignedValue>) -> int
        decreases values.len(),
    {
        if values.len() == 0 {
            0
        } else {
            SignedValue::total(values.drop_last()) + values.last().amount()
        }
    }

    /// Whether every running total on the way through `values` fits.
    pub open spec fn sums_fit(values: Seq<SignedValue>) -> bool {
        forall|k: int| 0 <= k <= values.len() ==> (#[trigger] SignedValue::sum(values.take(k))).fits()
    }

    /// The text of the value: that of its magnitude, behind a `-` where it is
    /// tagged negative.
    pub open spec fn text(self) -> Seq<char> {
        if self.negative {
            seq!['-'] + decimal_text(self.magnitude)
        } else {
            decimal_text(self.magnitude)
        }
    }

    /// The value that `text` stands for, if any. A leading `-` sets the
    /// negative tag and is dropped; what remains is read as a magnitude.
    pub open spec fn parse(text: Seq<char>) -> Option<SignedValue> {
        let negative = text.len() > 0 && text[0] == '-';
        let digits = if negative { text.subrange(1, text.len() as int) } else { text };
        match decimal_parse(digits) {
            Some(magnitude) => Some(SignedValue { negative, magnitude }),
            None => None,
        }
    }

    /// Addition is commutative: `a + b == b + a`, tags included.
    pub proof fn lemma_plus_commutative(a: SignedValue, b: SignedValue)
        ensures
            a.plus(b) == b.plus(a),
    {
    }

    /// Addition is associative: `(a + b) + c == a + (b + c)`, tags included.
    pub proof fn lemma_plus_associative(a: SignedValue, b: SignedValue, c: SignedValue)
        ensures
            a.plus(b).plus(c) == a.plus(b.plus(c)),
    {
    }

    /// The canonical zero is the identity of addition on either side, for every
    /// value but the negative zero, which addition turns into the canonical
    /// zero.
    pub proof fn lemma_plus_zero(a: SignedValue)
        requires
            !(a.negative && a.magnitude == 0),
        ensures
            a.plus(SignedValue::zero()) == a,
            SignedValue::zero().plus(a) == a,
    {
    }

    /// Taking the canonical zero away changes nothing: `a - 0 == a`, for every
    /// value, the negative zero too.
    pub proof fn lemma_minus_zero(a: SignedValue)
        ensures
            a.minus(SignedValue::zero()) == a,
    {
    }

    /// Adding two values to a running total gives the same total in either
    /// order.
    pub proof fn lemma_accumulate_commutes()
        ensures
            commutative_foldl(SignedValue::accumulate()),
    {
        assert forall|x: SignedValue, y: SignedValue, v: SignedValue|
            #[trigger] SignedValue::accumulate()(SignedValue::accumulate()(v, x), y)
                == SignedValue::accumulate()(SignedValue::accumulate()(v, y), x) by {
            assert(v.plus(x).plus(y) == v.plus(y).plus(x));
        }
    }

    /// The sum of a sequence does not depend on its order: two sequences that
    /// hold the same values the same number of times have the same sum.
    pub proof fn lemma_sum_any_order(a: Seq<SignedValue>, b: Seq<SignedValue>)
        requires
            a.to_multiset() == b.to_multiset(),
        ensures
            SignedValue::sum(a) == SignedValue::sum(b),
    {
        SignedValue::lemma_accumulate_commutes();
        lemma_fold_left_permutation(a, b, SignedValue::accumulate(), SignedValue::zero());
    }

    /// What a sum comes to: its amount is the total of the amounts, and it is
    /// tagged negative exactly where that total is below zero. So a sum is
    /// never a negative zero.
    pub proof fn lemma_sum_total(values: Seq<SignedValue>)
        ensures
            SignedValue::sum(values) == SignedValue::tagged(
                SignedValue::total(values) < 0,
                SignedValue::total(values),
            ),
        decreases values.len(),
    {
        if values.len() > 0 {
            SignedValue::lemma_sum_total(values.drop_last());
        }
    }
}

} // verus!
