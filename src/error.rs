use vstd::prelude::*;

verus! {

/// Every way a call of the engine can be refused. A refused call changes no
/// state and produces no transfer instruction.
#[derive(Debug, Clone, Copy, PartialEq, Eq, Structural)]
pub enum ContractError {
    /// A configuration change by someone other than the governance identity.
    Unauthorized,
    /// A new wager while the player's previous one is still open.
    AlreadyOpen,
    /// A prediction outside `[0, 99]`, or one that no draw can beat.
    InvalidPrediction,
    /// Settlement with no wager on record.
    NotFound,
    /// Settlement at or before the height at which the wager was placed.
    TooSoon,
    /// Settlement of a wager that is already settled.
    AlreadySettled,
    /// The oracle gave no draw in `[0, 100)`.
    OracleUnavailable,
    /// The payout does not fit in the amount type.
    PayoutOverflow,
}

} // verus!
