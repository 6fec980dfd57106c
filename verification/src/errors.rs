use vstd::prelude::*;

verus! {

/// Failure kinds reported by the accounting operations.
///
/// Every operation rejects bad input before it mutates anything, so an
/// error always leaves the records it was handed unchanged.
#[derive(Clone, Copy, Debug, PartialEq, Eq, Structural)]
pub enum CustomError {
    /// The supplied artist label does not match the record being mutated.
    InvalidArtist,
    /// A withdrawal was attempted with an empty pending balance.
    NoFundsToWithdraw,
    /// The pool's live balance does not cover the withdrawal.
    InsufficientPoolFunds,
    /// Reserved for stream validation; no operation in this core reports it.
    InvalidStream,
    /// A withdrawal was signed by an identity other than the record's owner.
    UnauthorizedWithdrawal,
    /// The platform fee percentage is above the allowed maximum.
    InvalidFeePercent,
    /// The artist label is longer than the allowed maximum.
    ArtistIdTooLong,
    /// A checked arithmetic step would have wrapped around 64 bits.
    MathOverflow,
    /// A batch holds more payment entries than the allowed maximum.
    BatchTooLarge,
}

} // verus!
