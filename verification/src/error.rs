//! The causes of failure that the three ledgers share.

use vstd::prelude::*;

verus! {

/// Why an operation was refused, by cause. Each ledger has its own error type
/// with finer names; every one of its values has exactly one cause.
#[derive(Clone, Copy, Debug, PartialEq, Eq, Structural)]
pub enum ErrorKind {
    /// An argument is unusable whatever the state: a text too long or missing,
    /// an amount of zero, a percentage out of range.
    Validation,
    /// The record is in the wrong stage of its life for the operation.
    State,
    /// A limit on funds, credit or supply would be passed.
    Capacity,
    /// An identity or an account is not the one that the record names.
    Authorization,
    /// A counter would leave the range of its type.
    Arithmetic,
}

} // verus!
