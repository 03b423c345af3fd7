use vstd::prelude::*;

verus! {

/// Why the token ledger refused a transfer.
#[derive(Clone, Copy, Debug, PartialEq, Eq, Structural)]
pub enum LedgerFault {
    /// The paying account holds less than the requested amount.
    InsufficientFunds,
    /// An account does not belong to the mint named in the request.
    MintMismatch,
}

/// Every way an operation of this crate can fail. A failed operation leaves
/// all records as they were.
#[derive(Clone, Copy, Debug, PartialEq, Eq, Structural)]
pub enum ErrorCode {
    /// The lower tick is not strictly below the upper tick.
    InvalidTickRange,
    /// The lower tick is not a multiple of the pool's tick spacing.
    InvalidLowerTick,
    /// The upper tick is not a multiple of the pool's tick spacing.
    InvalidUpperTick,
    /// A price or a liquidity total does not fit its integer type.
    ArithmeticOverflow,
    /// The ledger refused one of the two transfers.
    Settlement(LedgerFault),
    /// A pool record already exists for the ordered mint pair.
    PoolAlreadyExists,
}

} // verus!
