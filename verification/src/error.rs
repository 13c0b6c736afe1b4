use vstd::prelude::*;

verus! {

/// Why the core refused an operation. A refused operation changes nothing.
#[derive(Clone, Copy, Debug, PartialEq, Eq, Structural)]
pub enum CustomError {
    /// The content reference is empty or longer than 64 bytes.
    InvalidIpfsHashLength,
    /// Every unit the record allows has been minted.
    MaxSupplyReached,
    /// The caller is not the record's creator.
    Unauthorized,
    /// The record holds no fees to withdraw.
    NoFeesToClaim,
    /// A counter or a balance would pass the largest 64-bit value.
    NumericalOverflow,
    /// The escrow holds less than the record says it is owed.
    InsufficientEscrowBalance,
    /// The address of the new record or of its escrow is already in use.
    RecordAlreadyExists,
}

} // verus!
