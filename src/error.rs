use vstd::prelude::*;

verus! {

/// Why an action was rejected. A rejected action changes nothing.
#[derive(Clone, Copy, Debug, PartialEq, Eq, Structural)]
pub enum RpsError {
    /// The wager, or a counter that grows with it, does not fit its type.
    BetTooLarge,
    /// A payout, pricing or ledger computation left the range of its type.
    MathOverflow,
    /// The action is not accepted in the game's current state.
    InvalidTransition,
    /// The game's window for joining or revealing has closed.
    ChallengeExpired,
    /// The game cannot be expired before its window has closed.
    ChallengeNotExpired,
    /// The caller is not the player this action belongs to.
    WrongPlayer,
    /// The game is private and no matching entry secret was given.
    InvalidEntrySecret,
    /// The revealed salt and choice do not reproduce the stored commitment.
    InvalidCommitment,
    /// A ledger record does not belong to the player it is used for.
    AccountMismatch,
    /// The caller may not perform this privileged action.
    Unauthorized,
    /// The pool holds nothing while shares are outstanding: no deposits.
    PoolInsolvent,
    /// The pool has no liquid balance to pay a withdrawal from.
    NoLiquidity,
    /// No shares are outstanding, so none can be redeemed.
    NoSharesOutstanding,
}

} // verus!
