use vstd::prelude::*;

verus! {

/// A 32-byte account address, the fixed external schema for every principal,
/// vault and record in the ledger.
pub type Address = [u8; 32];

/// One instalment of a schedule: at `release_time` the beneficiary may be paid
/// `amount` once; `released` records that this has happened and is never
/// cleared again.
#[derive(Clone, Copy, Debug, PartialEq, Eq, Structural)]
pub struct YearlyPlan {
    pub release_time: i64,
    pub amount: u64,
    pub released: bool,
}

/// The ordered schedule of one vesting: its entries plus a back-reference to
/// the owning vesting record's address.
#[derive(Clone, Debug)]
pub struct VestingPlanChunk {
    pub vesting_account: Address,
    pub plans: Vec<YearlyPlan>,
}

/// One beneficiary's entitlement: the fixed total, the running released
/// counter, the custody addresses, and the active switch that gates releases.
#[derive(Clone, Debug)]
pub struct VestingAccount {
    pub beneficiary: Address,
    pub total_amount: u64,
    pub released_amount: u64,
    pub start_time: i64,
    pub end_time: i64,
    pub last_release_time: i64,
    pub token_mint: Address,
    pub token_vault: Address,
    pub beneficiary_vault: Address,
    pub category: String,
    pub is_active: bool,
    pub destination_token_account: Address,
    pub parent_vault: Address,
}

/// The single registered admin identity, consulted read-only.
#[derive(Clone, Copy, Debug)]
pub struct AdminConfig {
    pub admin: Address,
}

/// The single registered deployer identity, consulted read-only.
#[derive(Clone, Copy, Debug)]
pub struct DeployAdmin {
    pub deployer: Address,
}

/// A registered token: metadata plus the minting wallet whose receiving
/// address is an allowed release destination.
#[derive(Clone, Debug)]
pub struct TokenInfo {
    pub token_name: String,
    pub token_symbol: String,
    pub total_supply: u64,
    pub token_mint: Address,
    pub mint_wallet_address: Address,
}

/// The caller-supplied arguments of token registration.
#[derive(Clone, Debug)]
pub struct TokenInfoArgs {
    pub token_name: String,
    pub token_symbol: String,
    pub total_supply: u64,
    pub token_mint: Address,
    pub mint_wallet_address: Address,
}

/// The caller-supplied parameters of vesting creation.
#[derive(Clone, Debug)]
pub struct VestingParams {
    pub vesting_id: u64,
    pub total_amount: u64,
    pub released_amount: u64,
    pub start_time: i64,
    pub end_time: i64,
    pub category: String,
}

/// A read-only summary of one vesting, for callers that query the ledger.
#[derive(Clone, Copy, Debug)]
pub struct VestingInfo {
    pub total_amount: u64,
    pub released_amount: u64,
    pub releasable_amount: u64,
    pub next_release_time: i64,
    pub is_active: bool,
}

/// An instruction to the outside custody ledger: move `amount` tokens from
/// `from` to `to`, signed by `authority`. The library only ever names a
/// re-derived principal here, never a caller-supplied one.
#[derive(Clone, Copy, Debug)]
pub struct TransferOrder {
    pub amount: u64,
    pub from: Address,
    pub to: Address,
    pub authority: Address,
}

/// The sum of the amounts of the entries marked released, as a mathematical
/// integer.
pub open spec fn sum_released(s: Seq<YearlyPlan>) -> int
    decreases s.len(),
{
    if s.len() == 0 {
        0
    } else {
        sum_released(s.drop_last()) + if s.last().released {
            s.last().amount as int
        } else {
            0int
        }
    }
}

/// The sum of the amounts of all entries, released or not.
pub open spec fn sum_amounts(s: Seq<YearlyPlan>) -> int
    decreases s.len(),
{
    if s.len() == 0 {
        0
    } else {
        sum_amounts(s.drop_last()) + s.last().amount as int
    }
}

/// The accounting invariant of one vesting and its schedule: the released
/// counter is exactly the sum of the released entries, the whole schedule fits
/// in the total, and so the counter never exceeds the total.
pub open spec fn ledger_invariant(v: VestingAccount, plans: Seq<YearlyPlan>) -> bool {
    &&& v.released_amount == sum_released(plans)
    &&& sum_amounts(plans) <= v.total_amount
}

/// Every released sum is bounded by the sum over all entries.
pub proof fn lemma_sum_released_le_sum_amounts(s: Seq<YearlyPlan>)
    ensures
        sum_released(s) <= sum_amounts(s),
    decreases s.len(),
{
    if s.len() > 0 {
        lemma_sum_released_le_sum_amounts(s.drop_last());
    }
}

} // verus!
