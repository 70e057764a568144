use vstd::prelude::*;

verus! {

/// Failure taxonomy shared by every ledger operation. Each operation stops at
/// the first violated precondition and reports it; nothing is partially
/// applied.
#[derive(Clone, Copy, Debug, PartialEq, Eq, Structural)]
pub enum VestingError {
    /// The requested release time, or the matched entry's time, is still in
    /// the future, or the call replays before the last recorded release.
    VestingNotReached,
    /// Nothing is left to release.
    NoTokensToRelease,
    /// The caller is not the registered admin, or a supplied address does not
    /// match its re-derived counterpart.
    Unauthorized,
    /// The vesting record is switched off.
    NotActive,
    /// A malformed parameter: degenerate vaults, an unknown schedule entry, or
    /// an amount that does not match the entry.
    InvalidParameters,
    /// Adding the released amount would overflow the 64-bit counter.
    Overflow,
    /// The caller is not the registered deployer.
    NotDeployAdmin,
    /// The child-creation or deduction path found no parent schedule.
    ParentPlanNotFound,
    /// A parent schedule entry holds less than the child entry to fund.
    InsufficientAmount,
    /// The matched schedule entry was already released.
    AlreadyReleased,
    /// The token is not registered under this admin.
    InvalidToken,
    /// Closing requires the beneficiary custody balance to be zero.
    VaultNotEmpty,
    /// A token account's mint does not match the vesting's token.
    InvalidMint,
}

} // verus!
