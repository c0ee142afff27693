use vstd::prelude::*;

verus! {

/// Every way an operation of the vesting engine can fail. A failed operation
/// leaves every record as it found it.
#[derive(Clone, Copy, Debug, PartialEq, Eq, Structural)]
pub enum VestingError {
    /// The initial deposit into the pool's escrow did not go through.
    SetupFailed,
    /// The schedule has an empty tick (`vesting_end <= vesting_start`) or no ticks.
    InvalidSchedule,
    /// The purchase would allocate more tokens than the pool has left.
    InsufficientPoolSupply,
    /// The buyer's payment into the pool's escrow did not go through.
    PaymentTransferFailed,
    /// An amount does not fit in 64 bits.
    ArithmeticOverflow,
    /// The caller is not the authority of the record it acts on.
    Unauthorized,
    /// The pool's token escrow holds less than the account was allocated.
    InsufficientEscrowTokens,
    /// Every tick of the account's schedule has been claimed.
    VestingEnded,
    /// No full tick has elapsed since the last claim, or vesting has not started.
    NotTimeToClaim,
    /// The token transfer to the buyer did not go through.
    TokenTransferFailed,
}

} // verus!
