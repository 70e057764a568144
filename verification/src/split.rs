//! The allocation splitter.
//!
//! [`append_yearly_plan`] appends a batch of schedule entries to a vesting's
//! schedule. When the vesting's custody vault differs from its parent vault,
//! the appended amounts are first deducted from a linked parent schedule,
//! under one of two alignment policies chosen by comparing the first release
//! time of the batch to the parent's first release time:
//!
//! - equal ("aligned"): entries pair positionally; a pair with both sides
//!   pending requires the parent side to cover the new side and subtracts it;
//! - unequal ("offset"): both sides filter to pending entries in order, the
//!   parent's first pending entry is reserved and skipped, the rest pair
//!   positionally until the parent's pending supply runs out.
//!
//! A violated policy reports `InsufficientAmount` and leaves both schedules
//! untouched: the deduction is computed in full before anything is written.

use vstd::prelude::*;

use crate::addresses::addr_eq;
use crate::errors::VestingError;
use crate::state::{Address, AdminConfig, VestingAccount, VestingPlanChunk, YearlyPlan};

verus! {

/// The first release time of a schedule, when it has any entry.
pub open spec fn spec_first_time(s: Seq<YearlyPlan>) -> Option<i64> {
    if s.len() == 0 {
        None
    } else {
        Some(s[0].release_time)
    }
}

/// The indices of the pending (not yet released) entries, in storage order.
pub open spec fn pending_indices(s: Seq<YearlyPlan>) -> Seq<int>
    decreases s.len(),
{
    if s.len() == 0 {
        Seq::empty()
    } else {
        let pre = pending_indices(s.drop_last());
        if s.last().released {
            pre
        } else {
            pre.push(s.len() - 1)
        }
    }
}

/// How many of the first `k` entries are pending.
pub open spec fn pending_count(s: Seq<YearlyPlan>, k: int) -> int
    decreases k,
{
    if k <= 0 {
        0
    } else {
        pending_count(s, k - 1) + if s[k - 1].released {
            0int
        } else {
            1int
        }
    }
}

/// Every pending index lies inside the schedule and names a pending entry.
pub proof fn lemma_pending_indices_props(s: Seq<YearlyPlan>)
    ensures
        forall|k: int|
            0 <= k < pending_indices(s).len() ==> 0 <= #[trigger] pending_indices(s)[k] < s.len()
                && !s[pending_indices(s)[k]].released,
    decreases s.len(),
{
    if s.len() > 0 {
        lemma_pending_indices_props(s.drop_last());
        let pre = pending_indices(s.drop_last());
        assert forall|k: int| 0 <= k < pending_indices(s).len() implies 0 <= pending_indices(s)[k]
            < s.len() && !s[pending_indices(s)[k]].released by {
            if k < pre.len() {
                assert(pending_indices(s)[k] == pre[k]);
                assert(s.drop_last()[pre[k]] == s[pre[k]]);
            } else {
                assert(pending_indices(s)[k] == s.len() - 1);
                assert(s.last() == s[s.len() - 1]);
            }
        }
    }
}

/// What the aligned policy does to the parent entry at `i`: where the batch
/// has a positional partner and both sides are pending, the partner's amount
/// is subtracted; everywhere else the entry stands.
pub open spec fn aligned_entry(parent: Seq<YearlyPlan>, fresh: Seq<YearlyPlan>, i: int) -> YearlyPlan {
    let p = parent[i];
    if i < fresh.len() && !fresh[i].released && !p.released {
        YearlyPlan { amount: (p.amount - fresh[i].amount) as u64, ..p }
    } else {
        p
    }
}

/// The aligned policy is fundable: every positionally paired pair with both
/// sides pending has the parent side covering the batch side.
pub open spec fn aligned_ok(parent: Seq<YearlyPlan>, fresh: Seq<YearlyPlan>) -> bool {
    forall|i: int|
        0 <= i < parent.len() && i < fresh.len() && !fresh[i].released && !parent[i].released
            ==> parent[i].amount >= fresh[i].amount
}

/// The parent schedule after the aligned deduction.
pub open spec fn aligned_deducted(parent: Seq<YearlyPlan>, fresh: Seq<YearlyPlan>) -> Seq<YearlyPlan> {
    Seq::new(parent.len(), |i: int| aligned_entry(parent, fresh, i))
}

/// What the offset policy does to the parent entry at `i`: a pending entry at
/// pending position `pos >= 1` (the first pending entry is reserved) pairs
/// with the batch's pending entry number `pos - 1`, while that exists, and has
/// its amount subtracted; everything else stands.
pub open spec fn offset_entry(parent: Seq<YearlyPlan>, fresh: Seq<YearlyPlan>, i: int) -> YearlyPlan {
    let p = parent[i];
    let pos = pending_count(parent, i);
    let np = pending_indices(fresh);
    if !p.released && 1 <= pos && pos - 1 < np.len() {
        YearlyPlan { amount: (p.amount - fresh[np[pos - 1]].amount) as u64, ..p }
    } else {
        p
    }
}

/// The offset policy is fundable: every paired parent pending entry covers
/// its batch partner.
pub open spec fn offset_ok(parent: Seq<YearlyPlan>, fresh: Seq<YearlyPlan>) -> bool {
    forall|i: int|
        #![trigger pending_count(parent, i)]
        0 <= i < parent.len() ==> {
            let p = parent[i];
            let pos = pending_count(parent, i);
            let np = pending_indices(fresh);
            (!p.released && 1 <= pos && pos - 1 < np.len()) ==> p.amount >= fresh[np[pos
                - 1]].amount
        }
}

/// The parent schedule after the offset deduction.
pub open spec fn offset_deducted(parent: Seq<YearlyPlan>, fresh: Seq<YearlyPlan>) -> Seq<YearlyPlan> {
    Seq::new(parent.len(), |i: int| offset_entry(parent, fresh, i))
}

/// Collects the indices of the pending entries, in order.
fn pending_positions(s: &Vec<YearlyPlan>) -> (r: Vec<usize>)
    ensures
        r@.map_values(|u: usize| u as int) == pending_indices(s@),
{
    let mut r: Vec<usize> = Vec::new();
    let mut i: usize = 0;
    while i < s.len()
        invariant
            i <= s@.len(),
            r@.map_values(|u: usize| u as int) == pending_indices(s@.take(i as int)),
        decreases s@.len() - i,
    {
        proof {
            assert(s@.take(i as int + 1).drop_last() =~= s@.take(i as int));
            assert(s@.take(i as int + 1).last() == s@[i as int]);
        }
        if !s[i].released {
            r.push(i);
            proof {
                assert(r@.map_values(|u: usize| u as int) =~= pending_indices(
                    s@.take(i as int),
                ).push(i as int));
            }
        }
        i = i + 1;
    }
    proof {
        assert(s@.take(s@.len() as int) =~= s@);
    }
    r
}

/// Computes the aligned deduction into a fresh schedule, reporting
/// `InsufficientAmount` when a paired pending parent entry cannot cover its
/// partner.
fn aligned_deduct(parent: &Vec<YearlyPlan>, fresh: &Vec<YearlyPlan>) -> (r: Result<
    Vec<YearlyPlan>,
    VestingError,
>)
    ensures
        r is Ok <==> aligned_ok(parent@, fresh@),
        r matches Ok(v) ==> v@ == aligned_deducted(parent@, fresh@),
        r matches Err(e) ==> e == VestingError::InsufficientAmount,
{
    let mut out: Vec<YearlyPlan> = Vec::new();
    let mut i: usize = 0;
    while i < parent.len()
        invariant
            i <= parent@.len(),
            out@.len() == i,
            forall|k: int| 0 <= k < i ==> out@[k] == aligned_entry(parent@, fresh@, k),
            forall|k: int|
                0 <= k < i && k < fresh@.len() && !fresh@[k].released && !parent@[k].released
                    ==> parent@[k].amount >= fresh@[k].amount,
        decreases parent@.len() - i,
    {
        let p = parent[i];
        if i < fresh.len() && !fresh[i].released && !p.released {
            if p.amount < fresh[i].amount {
                proof {
                    assert(!aligned_ok(parent@, fresh@));
                }
                return Err(VestingError::InsufficientAmount);
            }
            out.push(
                YearlyPlan {
                    release_time: p.release_time,
                    amount: p.amount - fresh[i].amount,
                    released: p.released,
                },
            );
        } else {
            out.push(p);
        }
        i = i + 1;
    }
    proof {
        assert(out@ =~= aligned_deducted(parent@, fresh@));
    }
    Ok(out)
}

/// Computes the offset deduction into a fresh schedule: the parent's first
/// pending entry is reserved, later pending entries pair with the batch's
/// pending entries in order until either side runs out.
fn offset_deduct(parent: &Vec<YearlyPlan>, fresh: &Vec<YearlyPlan>) -> (r: Result<
    Vec<YearlyPlan>,
    VestingError,
>)
    ensures
        r is Ok <==> offset_ok(parent@, fresh@),
        r matches Ok(v) ==> v@ == offset_deducted(parent@, fresh@),
        r matches Err(e) ==> e == VestingError::InsufficientAmount,
{
    let np = pending_positions(fresh);
    proof {
        lemma_pending_indices_props(fresh@);
    }
    let mut out: Vec<YearlyPlan> = Vec::new();
    let mut count: usize = 0;
    let mut i: usize = 0;
    while i < parent.len()
        invariant
            i <= parent@.len(),
            count <= i,
            count as int == pending_count(parent@, i as int),
            out@.len() == i,
            np@.map_values(|u: usize| u as int) == pending_indices(fresh@),
            forall|k: int|
                0 <= k < pending_indices(fresh@).len() ==> 0 <= #[trigger] pending_indices(
                    fresh@,
                )[k] < fresh@.len(),
            forall|k: int| 0 <= k < i ==> out@[k] == offset_entry(parent@, fresh@, k),
            forall|k: int|
                #![trigger pending_count(parent@, k)]
                0 <= k < i ==> {
                    let p = parent@[k];
                    let pos = pending_count(parent@, k);
                    let nq = pending_indices(fresh@);
                    (!p.released && 1 <= pos && pos - 1 < nq.len()) ==> p.amount >= fresh@[nq[pos
                        - 1]].amount
                },
        decreases parent@.len() - i,
    {
        let p = parent[i];
        if !p.released {
            let pos = count;
            count = count + 1;
            if pos >= 1 && pos - 1 < np.len() {
                proof {
                    assert(np@[pos as int - 1] as int == pending_indices(fresh@)[pos as int - 1]);
                }
                let ded = fresh[np[pos - 1]].amount;
                if p.amount < ded {
                    proof {
                        assert(!offset_ok(parent@, fresh@));
                    }
                    return Err(VestingError::InsufficientAmount);
                }
                out.push(
                    YearlyPlan {
                        release_time: p.release_time,
                        amount: p.amount - ded,
                        released: p.released,
                    },
                );
            } else {
                out.push(p);
            }
        } else {
            out.push(p);
        }
        i = i + 1;
    }
    proof {
        assert(out@ =~= offset_deducted(parent@, fresh@));
    }
    Ok(out)
}

/// The outcome of appending a batch, gate by gate: the registered admin, then
/// — when the vesting's custody vault differs from its parent vault — a
/// present, program-owned parent schedule whose entries can fund the batch
/// under the alignment policy in force.
pub open spec fn spec_append_result(
    vesting: VestingAccount,
    parent: Option<VestingPlanChunk>,
    parent_owner: Address,
    admin: Address,
    cfg: AdminConfig,
    program_id: Address,
    fresh: Seq<YearlyPlan>,
) -> Result<(), VestingError> {
    if cfg.admin != admin {
        Err(VestingError::Unauthorized)
    } else if vesting.token_vault != vesting.parent_vault {
        if parent is None {
            Err(VestingError::ParentPlanNotFound)
        } else if parent_owner != program_id {
            Err(VestingError::Unauthorized)
        } else {
            let pp = parent->Some_0.plans@;
            if spec_first_time(fresh) == spec_first_time(pp) {
                if aligned_ok(pp, fresh) {
                    Ok(())
                } else {
                    Err(VestingError::InsufficientAmount)
                }
            } else {
                if offset_ok(pp, fresh) {
                    Ok(())
                } else {
                    Err(VestingError::InsufficientAmount)
                }
            }
        }
    } else {
        Ok(())
    }
}

/// Appends `fresh` to the vesting's schedule and rewrites its owning
/// back-reference; when the vesting is funded out of a parent vault, first
/// deducts the batch from the supplied parent schedule under the alignment
/// policy. Any failure leaves both schedules exactly as they were.
pub fn append_yearly_plan(
    chunk: &mut VestingPlanChunk,
    parent_chunk: &mut Option<VestingPlanChunk>,
    parent_owner: &Address,
    vesting: &VestingAccount,
    vesting_address: &Address,
    admin: &Address,
    cfg: &AdminConfig,
    program_id: &Address,
    fresh: &Vec<YearlyPlan>,
) -> (r: Result<(), VestingError>)
    ensures
        r == spec_append_result(
            *vesting,
            *old(parent_chunk),
            *parent_owner,
            *admin,
            *cfg,
            *program_id,
            fresh@,
        ),
        r is Err ==> final(chunk).vesting_account == old(chunk).vesting_account
            && final(chunk).plans@ == old(chunk).plans@,
        r is Err ==> opt_chunk_unchanged(*old(parent_chunk), *final(parent_chunk)),
        r is Ok ==> final(chunk).vesting_account == *vesting_address
            && final(chunk).plans@ == old(chunk).plans@ + fresh@,
        r is Ok && vesting.token_vault == vesting.parent_vault ==> opt_chunk_unchanged(
            *old(parent_chunk),
            *final(parent_chunk),
        ),
        r is Ok && vesting.token_vault != vesting.parent_vault ==> ((*old(parent_chunk))
            matches Some(pc) && (*final(parent_chunk)) matches Some(pc2)
            && pc2.vesting_account == pc.vesting_account && (if spec_first_time(fresh@)
            == spec_first_time(pc.plans@) {
            pc2.plans@ == aligned_deducted(pc.plans@, fresh@)
        } else {
            pc2.plans@ == offset_deducted(pc.plans@, fresh@)
        })),
{
    if !addr_eq(&cfg.admin, admin) {
        return Err(VestingError::Unauthorized);
    }
    let deduct = !addr_eq(&vesting.token_vault, &vesting.parent_vault);
    if deduct {
        match parent_chunk {
            None => {
                return Err(VestingError::ParentPlanNotFound);
            },
            Some(pc) => {
                if !addr_eq(parent_owner, program_id) {
                    return Err(VestingError::Unauthorized);
                }
                let tge_equal = if fresh.len() == 0 {
                    pc.plans.len() == 0
                } else {
                    pc.plans.len() > 0 && fresh[0].release_time == pc.plans[0].release_time
                };
                if tge_equal {
                    match aligned_deduct(&pc.plans, fresh) {
                        Ok(newp) => {
                            pc.plans = newp;
                        },
                        Err(e) => {
                            return Err(e);
                        },
                    }
                } else {
                    match offset_deduct(&pc.plans, fresh) {
                        Ok(newp) => {
                            pc.plans = newp;
                        },
                        Err(e) => {
                            return Err(e);
                        },
                    }
                }
            },
        }
    }
    chunk.vesting_account = *vesting_address;
    let mut i: usize = 0;
    while i < fresh.len()
        invariant
            i <= fresh@.len(),
            chunk.plans@ == old(chunk).plans@ + fresh@.take(i as int),
            chunk.vesting_account == *vesting_address,
            opt_deducted_rel(*old(parent_chunk), *parent_chunk, *vesting, fresh@),
        decreases fresh@.len() - i,
    {
        chunk.plans.push(fresh[i]);
        proof {
            assert(old(chunk).plans@ + fresh@.take(i as int + 1) =~= (old(chunk).plans@
                + fresh@.take(i as int)).push(fresh@[i as int]));
        }
        i = i + 1;
    }
    proof {
        assert(fresh@.take(fresh@.len() as int) =~= fresh@);
    }
    Ok(())
}

/// Both sides of an optional schedule agree: same presence, same owner, same
/// entries.
pub open spec fn opt_chunk_unchanged(a: Option<VestingPlanChunk>, b: Option<VestingPlanChunk>) -> bool {
    &&& a is Some <==> b is Some
    &&& (a matches Some(x) ==> b matches Some(y) && x.vesting_account == y.vesting_account
        && x.plans@ == y.plans@)
}

/// The parent schedule after a successful deduction pass, relative to the
/// batch and the vesting's vault layout.
pub open spec fn opt_deducted_rel(
    before: Option<VestingPlanChunk>,
    after: Option<VestingPlanChunk>,
    vesting: VestingAccount,
    fresh: Seq<YearlyPlan>,
) -> bool {
    if vesting.token_vault == vesting.parent_vault {
        opt_chunk_unchanged(before, after)
    } else {
        before matches Some(pc) && after matches Some(pc2) && pc2.vesting_account
            == pc.vesting_account && (if spec_first_time(fresh) == spec_first_time(pc.plans@) {
            pc2.plans@ == aligned_deducted(pc.plans@, fresh)
        } else {
            pc2.plans@ == offset_deducted(pc.plans@, fresh)
        })
    }
}

} // verus!
