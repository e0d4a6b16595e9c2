use vstd::prelude::*;

verus! {

/// Why an operation was refused. A refused operation leaves every record as
/// it found it.
#[derive(Clone, Copy, Debug, PartialEq, Eq, Structural)]
pub enum CustomError {
    /// More was asked back than the stake record holds.
    InsufficientBalance,
    /// The ledger could not move the funds the operation asked it to move.
    InsufficientFunds,
    /// A reward or a balance would have left the 64-bit range upward.
    ArithmeticOverflow,
    /// A balance or an epoch count would have dropped below zero.
    ArithmeticUnderflow,
    /// The record to be created was there already.
    AlreadyExists,
}

/// The ledger's answer when the paying balance does not cover a transfer.
#[derive(Clone, Copy, Debug, PartialEq, Eq, Structural)]
pub struct InsufficientFunds;

/// The storage layer's answer when the record to create is there already.
#[derive(Clone, Copy, Debug, PartialEq, Eq, Structural)]
pub struct AlreadyExists;

} // verus!
