//! The release engine.
//!
//! A release converts exactly one pending schedule entry into an irreversible
//! transfer. [`do_vesting`] re-derives every custody address, walks the
//! ordered precondition gates and, when all pass, returns a
//! [`ReleaseApproval`] carrying the transfer to perform; only after the
//! outside custody ledger confirms that transfer does [`apply_release`]
//! mutate the ledger record. A failed transfer therefore leaves the ledger
//! untouched.

use vstd::prelude::*;

use crate::addresses::{
    addr_eq, ata_seeds, derive_ata, derive_plans_address, derive_vault_address,
    derive_vault_authority, derive_vesting_address, pda_of, plans_seeds, spec_ata_program_id,
    vault_auth_seeds, vault_seeds, vesting_seeds,
};
use crate::errors::VestingError;
use crate::state::{
    ledger_invariant, sum_amounts, sum_released, Address, AdminConfig, TokenInfo, TransferOrder,
    VestingAccount, VestingPlanChunk, YearlyPlan,
};

verus! {

/// The caller-chosen arguments of one release request.
#[derive(Clone, Copy, Debug)]
pub struct ReleaseRequest {
    pub amount: u64,
    pub vesting_time: i64,
    pub vesting_id: u64,
}

/// The addresses the caller hands in with a release. None of them is trusted:
/// each is compared against the ledger record or against its re-derived
/// counterpart.
#[derive(Clone, Copy, Debug)]
pub struct ReleaseAccounts {
    pub admin: Address,
    pub beneficiary: Address,
    pub token_mint: Address,
    pub token_vault: Address,
    pub vesting_address: Address,
    pub plan_chunk_address: Address,
    pub origin_token_account: Address,
    pub destination_address: Address,
    pub destination_owner: Address,
    pub destination_mint: Address,
}

/// The re-derived addresses a release is validated against.
#[derive(Clone, Copy, Debug)]
pub struct ReleaseDerived {
    pub vesting_address: Address,
    pub plan_chunk_address: Address,
    pub origin_vault: Address,
    pub vault_authority: Address,
    pub vault_auth_bump: u8,
    pub beneficiary_ata: Address,
    pub mint_wallet_ata: Address,
}

/// A validated release: the transfer to hand to the custody ledger, the bump
/// of the signing authority, and the index of the schedule entry to mark
/// released once the transfer succeeded.
#[derive(Clone, Copy, Debug)]
pub struct ReleaseApproval {
    pub transfer: TransferOrder,
    pub vault_auth_bump: u8,
    pub plan_index: usize,
}

/// The index of the first entry with the given release time, or -1 when no
/// entry matches. Duplicate times resolve to storage order: the first match
/// wins.
pub open spec fn first_match(s: Seq<YearlyPlan>, t: i64) -> int
    decreases s.len(),
{
    if s.len() == 0 {
        -1
    } else if s[0].release_time == t {
        0
    } else {
        let r = first_match(s.subrange(1, s.len() as int), t);
        if r == -1 {
            -1
        } else {
            r + 1
        }
    }
}

/// Where an entry at `i` carries the time and everything before it does not,
/// the first match is `i`.
pub proof fn lemma_first_match_at(s: Seq<YearlyPlan>, t: i64, i: int)
    requires
        0 <= i < s.len(),
        s[i].release_time == t,
        forall|j: int| 0 <= j < i ==> s[j].release_time != t,
    ensures
        first_match(s, t) == i,
    decreases i,
{
    if i > 0 {
        let sub = s.subrange(1, s.len() as int);
        lemma_first_match_at(sub, t, i - 1);
    }
}

/// Where no entry carries the time, there is no match.
pub proof fn lemma_first_match_none(s: Seq<YearlyPlan>, t: i64)
    requires
        forall|j: int| 0 <= j < s.len() ==> s[j].release_time != t,
    ensures
        first_match(s, t) == -1,
    decreases s.len(),
{
    if s.len() > 0 {
        lemma_first_match_none(s.subrange(1, s.len() as int), t);
    }
}

/// The first match carries the time, sits inside the schedule, and nothing
/// before it matches.
pub proof fn lemma_first_match_found(s: Seq<YearlyPlan>, t: i64)
    requires
        first_match(s, t) != -1,
    ensures
        0 <= first_match(s, t) < s.len(),
        s[first_match(s, t)].release_time == t,
        forall|j: int| 0 <= j < first_match(s, t) ==> s[j].release_time != t,
    decreases s.len(),
{
    if s.len() > 0 && s[0].release_time != t {
        let sub = s.subrange(1, s.len() as int);
        lemma_first_match_found(sub, t);
        assert forall|j: int| 0 <= j < first_match(s, t) implies s[j].release_time != t by {
            if j > 0 {
                assert(s[j] == sub[j - 1]);
            }
        }
    }
}

/// Finds the first schedule entry with the given release time.
fn find_plan_index(plans: &Vec<YearlyPlan>, t: i64) -> (r: Option<usize>)
    ensures
        r is Some <==> first_match(plans@, t) != -1,
        r matches Some(i) ==> i as int == first_match(plans@, t),
{
    let mut i: usize = 0;
    while i < plans.len()
        invariant
            i <= plans@.len(),
            forall|j: int| 0 <= j < i ==> plans@[j].release_time != t,
        decreases plans@.len() - i,
    {
        if plans[i].release_time == t {
            proof {
                lemma_first_match_at(plans@, t, i as int);
            }
            return Some(i);
        }
        i = i + 1;
    }
    proof {
        lemma_first_match_none(plans@, t);
    }
    None
}

/// Every address a release must re-derive, composed from the derivation
/// names: the vesting record, its schedule, the origin custody vault, the
/// signing authority, and the two admissible destination addresses. `None`
/// when any single derivation finds no bump.
pub open spec fn spec_release_derived(
    admin: Address,
    beneficiary: Address,
    token_mint: Address,
    token_vault: Address,
    mint_wallet: Address,
    vesting_id: u64,
    program_id: Address,
) -> Option<ReleaseDerived> {
    let vest = pda_of(vesting_seeds(beneficiary@, token_mint@, vesting_id), program_id@);
    if vest is None {
        None
    } else {
        let plans = pda_of(plans_seeds(vest->Some_0.0@), program_id@);
        let vault = pda_of(vault_seeds(beneficiary@, token_mint@, vesting_id), program_id@);
        let auth = pda_of(vault_auth_seeds(admin@, token_vault@), program_id@);
        let b_ata = pda_of(ata_seeds(beneficiary@, token_mint@), spec_ata_program_id());
        let w_ata = pda_of(ata_seeds(mint_wallet@, token_mint@), spec_ata_program_id());
        if plans is None || vault is None || auth is None || b_ata is None || w_ata is None {
            None
        } else {
            Some(
                ReleaseDerived {
                    vesting_address: vest->Some_0.0,
                    plan_chunk_address: plans->Some_0.0,
                    origin_vault: vault->Some_0.0,
                    vault_authority: auth->Some_0.0,
                    vault_auth_bump: auth->Some_0.1,
                    beneficiary_ata: b_ata->Some_0.0,
                    mint_wallet_ata: w_ata->Some_0.0,
                },
            )
        }
    }
}

/// Re-derives every address a release depends on. `None` exactly when one of
/// the underlying derivations finds no bump, in which case no release against
/// these inputs is possible at all.
pub fn derive_release_addresses(
    admin: &Address,
    beneficiary: &Address,
    token_mint: &Address,
    token_vault: &Address,
    mint_wallet: &Address,
    vesting_id: u64,
    program_id: &Address,
) -> (r: Option<ReleaseDerived>)
    ensures
        r == spec_release_derived(
            *admin,
            *beneficiary,
            *token_mint,
            *token_vault,
            *mint_wallet,
            vesting_id,
            *program_id,
        ),
{
    let vest = match derive_vesting_address(beneficiary, token_mint, vesting_id, program_id) {
        Some(v) => v,
        None => {
            return None;
        },
    };
    let plans = match derive_plans_address(&vest.0, program_id) {
        Some(p) => p,
        None => {
            return None;
        },
    };
    let vault = match derive_vault_address(beneficiary, token_mint, vesting_id, program_id) {
        Some(v) => v,
        None => {
            return None;
        },
    };
    let auth = match derive_vault_authority(admin, token_vault, program_id) {
        Some(a) => a,
        None => {
            return None;
        },
    };
    let b_ata = match derive_ata(beneficiary, token_mint) {
        Some(a) => a,
        None => {
            return None;
        },
    };
    let w_ata = match derive_ata(mint_wallet, token_mint) {
        Some(a) => a,
        None => {
            return None;
        },
    };
    Some(
        ReleaseDerived {
            vesting_address: vest.0,
            plan_chunk_address: plans.0,
            origin_vault: vault.0,
            vault_authority: auth.0,
            vault_auth_bump: auth.1,
            beneficiary_ata: b_ata,
            mint_wallet_ata: w_ata,
        },
    )
}

/// The ordered precondition gates of a release, each a distinct failure, the
/// first violated one reported. On success, the index of the entry to
/// release.
pub open spec fn spec_check_release(
    v: VestingAccount,
    chunk: VestingPlanChunk,
    cfg: AdminConfig,
    info: TokenInfo,
    req: ReleaseRequest,
    accts: ReleaseAccounts,
    d: ReleaseDerived,
    now: i64,
) -> Result<int, VestingError> {
    if cfg.admin != accts.admin {
        Err(VestingError::Unauthorized)
    } else if !v.is_active {
        Err(VestingError::NotActive)
    } else if !(v.last_release_time <= now) {
        Err(VestingError::VestingNotReached)
    } else if v.beneficiary != accts.beneficiary {
        Err(VestingError::Unauthorized)
    } else if v.token_mint != accts.token_mint {
        Err(VestingError::InvalidMint)
    } else if accts.vesting_address != d.vesting_address {
        Err(VestingError::Unauthorized)
    } else if chunk.vesting_account != accts.vesting_address {
        Err(VestingError::InvalidParameters)
    } else if accts.plan_chunk_address != d.plan_chunk_address {
        Err(VestingError::Unauthorized)
    } else if !(req.vesting_time <= now) {
        Err(VestingError::VestingNotReached)
    } else if accts.origin_token_account != d.origin_vault {
        Err(VestingError::Unauthorized)
    } else if accts.destination_mint != accts.token_mint {
        Err(VestingError::InvalidMint)
    } else if !((accts.destination_address == d.beneficiary_ata && accts.destination_owner
        == accts.beneficiary) || (accts.destination_address == d.mint_wallet_ata
        && accts.destination_owner == info.mint_wallet_address)) {
        Err(VestingError::Unauthorized)
    } else if first_match(chunk.plans@, req.vesting_time) == -1 {
        Err(VestingError::InvalidParameters)
    } else {
        let i = first_match(chunk.plans@, req.vesting_time);
        let p = chunk.plans@[i];
        if !(p.release_time <= now) {
            Err(VestingError::VestingNotReached)
        } else if p.released {
            Err(VestingError::AlreadyReleased)
        } else if p.amount != req.amount {
            Err(VestingError::InvalidParameters)
        } else {
            Ok(i)
        }
    }
}

/// Walks the release gates against the given re-derived addresses and, when
/// all pass, approves the transfer of the matched entry's amount from the
/// custody vault to the validated destination, signed by the derived
/// authority. Nothing is mutated here.
pub fn check_release(
    v: &VestingAccount,
    chunk: &VestingPlanChunk,
    cfg: &AdminConfig,
    info: &TokenInfo,
    req: &ReleaseRequest,
    accts: &ReleaseAccounts,
    d: &ReleaseDerived,
    now: i64,
) -> (r: Result<ReleaseApproval, VestingError>)
    ensures
        r matches Err(e) ==> spec_check_release(*v, *chunk, *cfg, *info, *req, *accts, *d, now)
            == Err::<int, VestingError>(e),
        r matches Ok(a) ==> spec_check_release(*v, *chunk, *cfg, *info, *req, *accts, *d, now)
            matches Ok(i) && a.plan_index as int == i && a.vault_auth_bump == d.vault_auth_bump
            && a.transfer == (TransferOrder {
            amount: req.amount,
            from: accts.origin_token_account,
            to: accts.destination_address,
            authority: d.vault_authority,
        }),
{
    if !addr_eq(&cfg.admin, &accts.admin) {
        return Err(VestingError::Unauthorized);
    }
    if !v.is_active {
        return Err(VestingError::NotActive);
    }
    if !(v.last_release_time <= now) {
        return Err(VestingError::VestingNotReached);
    }
    if !addr_eq(&v.beneficiary, &accts.beneficiary) {
        return Err(VestingError::Unauthorized);
    }
    if !addr_eq(&v.token_mint, &accts.token_mint) {
        return Err(VestingError::InvalidMint);
    }
    if !addr_eq(&accts.vesting_address, &d.vesting_address) {
        return Err(VestingError::Unauthorized);
    }
    if !addr_eq(&chunk.vesting_account, &accts.vesting_address) {
        return Err(VestingError::InvalidParameters);
    }
    if !addr_eq(&accts.plan_chunk_address, &d.plan_chunk_address) {
        return Err(VestingError::Unauthorized);
    }
    if !(req.vesting_time <= now) {
        return Err(VestingError::VestingNotReached);
    }
    if !addr_eq(&accts.origin_token_account, &d.origin_vault) {
        return Err(VestingError::Unauthorized);
    }
    if !addr_eq(&accts.destination_mint, &accts.token_mint) {
        return Err(VestingError::InvalidMint);
    }
    let is_beneficiary_ata = addr_eq(&accts.destination_address, &d.beneficiary_ata) && addr_eq(
        &accts.destination_owner,
        &accts.beneficiary,
    );
    let is_admin_ata = addr_eq(&accts.destination_address, &d.mint_wallet_ata) && addr_eq(
        &accts.destination_owner,
        &info.mint_wallet_address,
    );
    if !(is_beneficiary_ata || is_admin_ata) {
        return Err(VestingError::Unauthorized);
    }
    let plan_index = match find_plan_index(&chunk.plans, req.vesting_time) {
        Some(i) => i,
        None => {
            return Err(VestingError::InvalidParameters);
        },
    };
    proof {
        lemma_first_match_found(chunk.plans@, req.vesting_time);
    }
    let plan = chunk.plans[plan_index];
    if !(plan.release_time <= now) {
        return Err(VestingError::VestingNotReached);
    }
    if plan.released {
        return Err(VestingError::AlreadyReleased);
    }
    if plan.amount != req.amount {
        return Err(VestingError::InvalidParameters);
    }
    Ok(
        ReleaseApproval {
            transfer: TransferOrder {
                amount: req.amount,
                from: accts.origin_token_account,
                to: accts.destination_address,
                authority: d.vault_authority,
            },
            vault_auth_bump: d.vault_auth_bump,
            plan_index,
        },
    )
}

/// Validates one release request in full: computes every expected address
/// anew, then checks the ordered preconditions against them. `None` exactly
/// when no bump exists for one of the addresses; otherwise the result of the
/// precondition checks.
pub fn do_vesting(
    v: &VestingAccount,
    chunk: &VestingPlanChunk,
    cfg: &AdminConfig,
    info: &TokenInfo,
    req: &ReleaseRequest,
    accts: &ReleaseAccounts,
    program_id: &Address,
    now: i64,
) -> (r: Option<Result<ReleaseApproval, VestingError>>)
    ensures
        r is Some <==> spec_release_derived(
            accts.admin,
            accts.beneficiary,
            accts.token_mint,
            accts.token_vault,
            info.mint_wallet_address,
            req.vesting_id,
            *program_id,
        ) is Some,
        r matches Some(res) ==> {
            let d = spec_release_derived(
                accts.admin,
                accts.beneficiary,
                accts.token_mint,
                accts.token_vault,
                info.mint_wallet_address,
                req.vesting_id,
                *program_id,
            )->Some_0;
            &&& (res matches Err(e) ==> spec_check_release(
                *v,
                *chunk,
                *cfg,
                *info,
                *req,
                *accts,
                d,
                now,
            ) == Err::<int, VestingError>(e))
            &&& (res matches Ok(a) ==> spec_check_release(
                *v,
                *chunk,
                *cfg,
                *info,
                *req,
                *accts,
                d,
                now,
            ) matches Ok(i) && a.plan_index as int == i && a.vault_auth_bump == d.vault_auth_bump
                && a.transfer == (TransferOrder {
                amount: req.amount,
                from: accts.origin_token_account,
                to: accts.destination_address,
                authority: d.vault_authority,
            }))
        },
{
    let derived = match derive_release_addresses(
        &accts.admin,
        &accts.beneficiary,
        &accts.token_mint,
        &accts.token_vault,
        &info.mint_wallet_address,
        req.vesting_id,
        program_id,
    ) {
        Some(d) => d,
        None => {
            return None;
        },
    };
    Some(check_release(v, chunk, cfg, info, req, accts, &derived, now))
}

/// Commits a release that the custody ledger has confirmed: adds the amount
/// to the released counter (checked, `Overflow` on failure with nothing
/// changed), records the release time and marks the entry released. The only
/// path that mutates `released_amount` or `last_release_time`.
pub fn apply_release(
    v: &mut VestingAccount,
    chunk: &mut VestingPlanChunk,
    plan_index: usize,
    amount: u64,
    now: i64,
) -> (r: Result<(), VestingError>)
    requires
        plan_index < old(chunk).plans@.len(),
    ensures
        r is Ok <==> old(v).released_amount + amount <= u64::MAX,
        r matches Err(e) ==> e == VestingError::Overflow,
        r is Ok ==> *final(v) == (VestingAccount {
            released_amount: (old(v).released_amount + amount) as u64,
            last_release_time: now,
            ..*old(v)
        }),
        r is Ok ==> final(chunk).vesting_account == old(chunk).vesting_account
            && final(chunk).plans@ == old(chunk).plans@.update(
            plan_index as int,
            (YearlyPlan { released: true, ..old(chunk).plans@[plan_index as int] }),
        ),
        r is Err ==> *final(v) == *old(v) && final(chunk).vesting_account == old(chunk).vesting_account
            && final(chunk).plans@ == old(chunk).plans@,
{
    match v.released_amount.checked_add(amount) {
        Some(new_released) => {
            v.released_amount = new_released;
            v.last_release_time = now;
            let mut plan = chunk.plans[plan_index];
            plan.released = true;
            chunk.plans.set(plan_index, plan);
            Ok(())
        },
        None => Err(VestingError::Overflow),
    }
}

/// Marking one pending entry released raises the released sum by exactly its
/// amount.
proof fn lemma_sum_released_update(s: Seq<YearlyPlan>, i: int)
    requires
        0 <= i < s.len(),
        !s[i].released,
    ensures
        sum_released(s.update(i, (YearlyPlan { released: true, ..s[i] }))) == sum_released(s)
            + s[i].amount,
    decreases s.len(),
{
    let s2 = s.update(i, (YearlyPlan { released: true, ..s[i] }));
    if i == s.len() - 1 {
        assert(s2.drop_last() =~= s.drop_last());
    } else {
        assert(s2.drop_last() =~= s.drop_last().update(i, (YearlyPlan { released: true, ..s[i] })));
        lemma_sum_released_update(s.drop_last(), i);
    }
}

/// Flipping a released flag leaves the sum over all amounts unchanged.
proof fn lemma_sum_amounts_update(s: Seq<YearlyPlan>, i: int)
    requires
        0 <= i < s.len(),
    ensures
        sum_amounts(s.update(i, (YearlyPlan { released: true, ..s[i] }))) == sum_amounts(s),
    decreases s.len(),
{
    let s2 = s.update(i, (YearlyPlan { released: true, ..s[i] }));
    if i == s.len() - 1 {
        assert(s2.drop_last() =~= s.drop_last());
    } else {
        assert(s2.drop_last() =~= s.drop_last().update(i, (YearlyPlan { released: true, ..s[i] })));
        lemma_sum_amounts_update(s.drop_last(), i);
    }
}

/// A pending entry always fits: under the accounting invariant, the released
/// counter plus any one pending entry's amount stays within the total, so the
/// checked addition of a release can never overflow.
pub proof fn lemma_pending_entry_fits(v: VestingAccount, plans: Seq<YearlyPlan>, i: int)
    requires
        ledger_invariant(v, plans),
        0 <= i < plans.len(),
        !plans[i].released,
    ensures
        v.released_amount + plans[i].amount <= v.total_amount,
{
    lemma_sum_released_update(plans, i);
    let plans2 = plans.update(i, (YearlyPlan { released: true, ..plans[i] }));
    crate::state::lemma_sum_released_le_sum_amounts(plans2);
    lemma_sum_amounts_update(plans, i);
}

/// Releasing one pending entry preserves the accounting invariant: the
/// released counter still equals the sum of released entries and still fits
/// in the total.
pub proof fn lemma_release_preserves_invariant(
    v: VestingAccount,
    plans: Seq<YearlyPlan>,
    i: int,
    v2: VestingAccount,
    plans2: Seq<YearlyPlan>,
)
    requires
        ledger_invariant(v, plans),
        0 <= i < plans.len(),
        !plans[i].released,
        v2.total_amount == v.total_amount,
        v2.released_amount == v.released_amount + plans[i].amount,
        plans2 == plans.update(i, (YearlyPlan { released: true, ..plans[i] })),
    ensures
        ledger_invariant(v2, plans2),
        v2.released_amount <= v2.total_amount,
{
    lemma_sum_released_update(plans, i);
    lemma_sum_amounts_update(plans, i);
    crate::state::lemma_sum_released_le_sum_amounts(plans2);
}

/// Releasing the same time twice fails the second call with AlreadyReleased:
/// after a successful release is applied, the same request against the new
/// state — at any time not before the recorded release — stops at the
/// already-released gate, and nothing offers a path that would mutate state.
pub proof fn lemma_second_release_already_released(
    v: VestingAccount,
    chunk: VestingPlanChunk,
    cfg: AdminConfig,
    info: TokenInfo,
    req: ReleaseRequest,
    accts: ReleaseAccounts,
    d: ReleaseDerived,
    now1: i64,
    now2: i64,
    i: int,
    v2: VestingAccount,
    chunk2: VestingPlanChunk,
)
    requires
        spec_check_release(v, chunk, cfg, info, req, accts, d, now1) == Ok::<
            int,
            VestingError,
        >(i),
        now1 <= now2,
        v2.is_active == v.is_active,
        v2.beneficiary == v.beneficiary,
        v2.token_mint == v.token_mint,
        v2.last_release_time == now1,
        chunk2.vesting_account == chunk.vesting_account,
        chunk2.plans@ == chunk.plans@.update(i, (YearlyPlan { released: true, ..chunk.plans@[i] })),
    ensures
        spec_check_release(v2, chunk2, cfg, info, req, accts, d, now2) == Err::<
            int,
            VestingError,
        >(VestingError::AlreadyReleased),
{
    lemma_first_match_found(chunk.plans@, req.vesting_time);
    lemma_first_match_at(chunk2.plans@, req.vesting_time, i);
}

/// After a successful release at time T, any attempt whose current time lies
/// before the recorded last release fails the temporal gate, for an active
/// vesting under the registered admin.
pub proof fn lemma_replay_blocked(
    v2: VestingAccount,
    chunk2: VestingPlanChunk,
    cfg: AdminConfig,
    info: TokenInfo,
    req: ReleaseRequest,
    accts: ReleaseAccounts,
    d: ReleaseDerived,
    now: i64,
)
    requires
        cfg.admin == accts.admin,
        v2.is_active,
        now < v2.last_release_time,
    ensures
        spec_check_release(v2, chunk2, cfg, info, req, accts, d, now) == Err::<
            int,
            VestingError,
        >(VestingError::VestingNotReached),
{
}

} // verus!
