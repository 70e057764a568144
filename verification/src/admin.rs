//! Administrative operations: registering the deployer and admin identities,
//! registering a token, locking tokens into the admin vault, replacing a
//! schedule wholesale, the two-way active toggle, and closing a vesting.
//!
//! Records live outside the library; each operation here validates a snapshot
//! of them and returns the new record, the outcome, or the transfer to
//! perform. Destroying closed records and moving tokens is the caller's job.

use vstd::prelude::*;

use crate::addresses::{addr_eq, derive_lockup_vault_address, lockup_vault_seeds, pda_of};
use crate::errors::VestingError;
use crate::state::{
    Address, AdminConfig, DeployAdmin, TokenInfo, TokenInfoArgs, TransferOrder, VestingAccount,
    VestingPlanChunk, YearlyPlan,
};

verus! {

/// Registers the deployer identity.
pub fn initialize_deployer(deployer: &Address) -> (r: DeployAdmin)
    ensures
        r.deployer == *deployer,
{
    DeployAdmin { deployer: *deployer }
}

/// The registered deployer designates the admin. Fails with `NotDeployAdmin`
/// exactly when the caller is not the registered deployer.
pub fn initialize(deployer_admin: &DeployAdmin, deployer: &Address, admin: &Address) -> (r: Result<
    AdminConfig,
    VestingError,
>)
    ensures
        r is Ok <==> deployer_admin.deployer == *deployer,
        r matches Ok(c) ==> c.admin == *admin,
        r matches Err(e) ==> e == VestingError::NotDeployAdmin,
{
    if !addr_eq(&deployer_admin.deployer, deployer) {
        return Err(VestingError::NotDeployAdmin);
    }
    Ok(AdminConfig { admin: *admin })
}

/// The registered deployer retires the admin registry row. `Ok` authorizes
/// the caller to destroy the row; nothing else changes.
pub fn remove_admin(deployer_admin: &DeployAdmin, deployer: &Address) -> (r: Result<
    (),
    VestingError,
>)
    ensures
        r is Ok <==> deployer_admin.deployer == *deployer,
        r matches Err(e) ==> e == VestingError::NotDeployAdmin,
{
    if !addr_eq(&deployer_admin.deployer, deployer) {
        return Err(VestingError::NotDeployAdmin);
    }
    Ok(())
}

/// Registers a token's metadata and minting wallet under the admin. Fails
/// with `Unauthorized` exactly when the caller is not the registered admin.
pub fn init_token_info(cfg: &AdminConfig, scheduler_admin: &Address, args: TokenInfoArgs) -> (r:
    Result<TokenInfo, VestingError>)
    ensures
        r is Ok <==> cfg.admin == *scheduler_admin,
        r matches Ok(t) ==> t.token_name == args.token_name && t.token_symbol == args.token_symbol
            && t.total_supply == args.total_supply && t.token_mint == args.token_mint
            && t.mint_wallet_address == args.mint_wallet_address,
        r matches Err(e) ==> e == VestingError::Unauthorized,
{
    if !addr_eq(&cfg.admin, scheduler_admin) {
        return Err(VestingError::Unauthorized);
    }
    Ok(
        TokenInfo {
            token_name: args.token_name,
            token_symbol: args.token_symbol,
            total_supply: args.total_supply,
            token_mint: args.token_mint,
            mint_wallet_address: args.mint_wallet_address,
        },
    )
}

/// Flips the vesting's active switch — a two-way toggle, not a one-way halt:
/// calling it twice reactivates. Admin-only, against the recorded beneficiary
/// and token.
pub fn emergency_stop(
    v: &mut VestingAccount,
    cfg: &AdminConfig,
    admin: &Address,
    beneficiary: &Address,
    token_mint: &Address,
) -> (r: Result<(), VestingError>)
    ensures
        r is Ok <==> (cfg.admin == *admin && old(v).beneficiary == *beneficiary && old(
            v,
        ).token_mint == *token_mint),
        r matches Err(e) ==> e == VestingError::Unauthorized,
        r is Ok ==> *final(v) == (VestingAccount { is_active: !old(v).is_active, ..*old(v) }),
        r is Err ==> *final(v) == *old(v),
{
    if !addr_eq(&cfg.admin, admin) {
        return Err(VestingError::Unauthorized);
    }
    if !addr_eq(&v.beneficiary, beneficiary) {
        return Err(VestingError::Unauthorized);
    }
    if !addr_eq(&v.token_mint, token_mint) {
        return Err(VestingError::Unauthorized);
    }
    v.is_active = !v.is_active;
    Ok(())
}

/// Replaces the schedule's entries wholesale — a destructive, admin-only
/// overwrite with no deduction; the owning back-reference stays.
pub fn update_plan_chunk(
    chunk: &mut VestingPlanChunk,
    cfg: &AdminConfig,
    admin: &Address,
    plans: &Vec<YearlyPlan>,
) -> (r: Result<(), VestingError>)
    ensures
        r is Ok <==> cfg.admin == *admin,
        r matches Err(e) ==> e == VestingError::Unauthorized,
        r is Ok ==> final(chunk).plans@ == plans@ && final(chunk).vesting_account == old(
            chunk,
        ).vesting_account,
        r is Err ==> final(chunk).plans@ == old(chunk).plans@ && final(chunk).vesting_account
            == old(chunk).vesting_account,
{
    if !addr_eq(&cfg.admin, admin) {
        return Err(VestingError::Unauthorized);
    }
    chunk.plans.clear();
    let mut i: usize = 0;
    while i < plans.len()
        invariant
            i <= plans@.len(),
            chunk.plans@ == plans@.take(i as int),
            chunk.vesting_account == old(chunk).vesting_account,
        decreases plans@.len() - i,
    {
        chunk.plans.push(plans[i]);
        proof {
            assert(plans@.take(i as int).push(plans@[i as int]) =~= plans@.take(i as int + 1));
        }
        i = i + 1;
    }
    proof {
        assert(plans@.take(plans@.len() as int) =~= plans@);
    }
    Ok(())
}

/// Authorizes closing a vesting and its schedule: admin-only, against the
/// recorded beneficiary vault, and only once that vault's balance is zero.
/// `Ok` authorizes the caller to destroy both records and reclaim their
/// storage.
pub fn close_vesting_account(
    cfg: &AdminConfig,
    admin: &Address,
    v: &VestingAccount,
    beneficiary_vault: &Address,
    beneficiary_vault_balance: u64,
) -> (r: Result<(), VestingError>)
    ensures
        r is Ok <==> (cfg.admin == *admin && v.beneficiary_vault == *beneficiary_vault
            && beneficiary_vault_balance == 0),
        r matches Err(e) ==> (if cfg.admin != *admin || v.beneficiary_vault != *beneficiary_vault {
            e == VestingError::Unauthorized
        } else {
            e == VestingError::VaultNotEmpty
        }),
{
    if !addr_eq(&cfg.admin, admin) {
        return Err(VestingError::Unauthorized);
    }
    if !addr_eq(&v.beneficiary_vault, beneficiary_vault) {
        return Err(VestingError::Unauthorized);
    }
    if beneficiary_vault_balance != 0 {
        return Err(VestingError::VaultNotEmpty);
    }
    Ok(())
}

/// Locks tokens from the admin's token account into the admin's lockup vault
/// for the token: the vault address is re-derived and compared, and the
/// returned transfer is signed by the admin. `None` exactly when the vault
/// derivation finds no bump.
pub fn lockup_vault(
    admin: &Address,
    admin_token_account: &Address,
    token_mint: &Address,
    token_vault: &Address,
    amount: u64,
    program_id: &Address,
) -> (r: Option<Result<TransferOrder, VestingError>>)
    ensures
        r is Some <==> pda_of(lockup_vault_seeds(admin@, token_mint@), program_id@) is Some,
        r matches Some(res) ==> {
            let derived = pda_of(lockup_vault_seeds(admin@, token_mint@), program_id@)->Some_0.0;
            &&& (res is Ok <==> *token_vault == derived)
            &&& (res matches Ok(t) ==> t == (TransferOrder {
                amount,
                from: *admin_token_account,
                to: *token_vault,
                authority: *admin,
            }))
            &&& (res matches Err(e) ==> e == VestingError::Unauthorized)
        },
{
    let derived = match derive_lockup_vault_address(admin, token_mint, program_id) {
        Some(d) => d,
        None => {
            return None;
        },
    };
    if !addr_eq(token_vault, &derived.0) {
        return Some(Err(VestingError::Unauthorized));
    }
    Some(
        Ok(
            TransferOrder {
                amount,
                from: *admin_token_account,
                to: *token_vault,
                authority: *admin,
            },
        ),
    )
}

} // verus!
