//! The capabilities that a signed decimal shares with the unsigned one.

use crate::magnitude::RatioError;
use vstd::prelude::*;

verus! {

/// What generic numeric code may ask of a decimal, signed or not.
pub trait CwDecimal: Sized {
    /// The integer that ratios are made of.
    type CwInt;

    /// Whether the value is zero.
    fn is_zero(&self) -> bool;

    /// The approximate square root.
    fn sqrt(&self) -> Self;

    /// `x` percent, `x / 100`.
    fn percent(x: u64) -> Self;

    /// `x` permille, `x / 1000`.
    fn permille(x: u64) -> Self;

    /// The ratio `numerator / denominator`, or why it is not a decimal.
    fn from_ratio(numerator: Self::CwInt, denominator: Self::CwInt) -> Result<Self, RatioError>;
}

} // verus!
