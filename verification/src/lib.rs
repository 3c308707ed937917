//! A signed fixed-point decimal built on the unsigned `Decimal` of `cosmwasm_std`.
//!
//! The unsigned decimal can only hold values that are zero or greater. A
//! [`signed_decimal::SignedDecimal`] tags a [`magnitude::Magnitude`] as
//! non-negative or negative, so that balances, deltas and running totals may go
//! below zero. Addition and subtraction split on the two tags and only ever
//! subtract a smaller magnitude from a larger one.

pub mod contract_interface;
pub mod cw_decimal;
pub mod magnitude;
pub mod value;
pub mod signed_decimal;
pub mod add;
pub mod sub;
