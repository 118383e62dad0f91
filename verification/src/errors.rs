use vstd::prelude::*;

verus! {

/// Errors surfaced by the ledger transitions and the batch inspector.
///
/// Every error is terminal for the operation that raised it: the
/// surrounding execution environment discards the whole atomic unit, so
/// nothing is retried and no partial mutation survives.
#[derive(Clone, Copy, Debug, PartialEq, Eq, Structural)]
pub enum ProtocolError {
    /// A zero amount was supplied where a positive amount is required.
    InvalidAmount,
    /// A counterpart entry was tag-matched but too short to carry the
    /// required resource references.
    InvalidIx,
    /// An operation's position in the batch could not be resolved.
    InvalidInstructionIndex,
    /// Insufficient available liquidity, vault balance, or repayer balance.
    NotEnoughFunds,
    /// An entry claimed to belong to this protocol but did not.
    ProgramMismatch,
    /// An entry was issued by a different protocol.
    InvalidProgram,
    /// The counterpart repay references a different borrower asset account.
    InvalidBorrowerAta,
    /// The counterpart repay references a different pool account.
    InvalidPool,
    /// The counterpart repay references a different pool vault account.
    InvalidPoolAta,
    /// No correctly issued repay entry follows the borrow in its window.
    MissingRepayIx,
    /// No correctly issued borrow entry precedes the repay in its window.
    MissingBorrowIx,
    /// A checked arithmetic step would wrap.
    Overflow,
}

} // verus!
