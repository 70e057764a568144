//! Vesting creation.
//!
//! Creation persists a new [`VestingAccount`] and funds its custody vault by
//! moving the not-yet-released part of the allocation out of the parent
//! vault, signed by the re-derived custody authority. The child-creation
//! variant additionally requires the named parent vesting to have a non-empty
//! schedule; the actual deduction from the parent schedule is the allocation
//! splitter's job, not creation's.

use vstd::prelude::*;

use crate::addresses::{
    addr_eq, derive_vault_address, derive_vault_authority, derive_vesting_address, pda_of,
    vault_auth_seeds, vault_seeds, vesting_seeds,
};
use crate::errors::VestingError;
use crate::state::{
    Address, AdminConfig, TokenInfo, TransferOrder, VestingAccount, VestingParams,
    VestingPlanChunk,
};

verus! {

/// The addresses the caller hands in with a creation. None of them is
/// trusted: the record and vault addresses are re-derived and compared.
#[derive(Clone, Copy, Debug)]
pub struct CreateAccounts {
    pub admin: Address,
    pub beneficiary: Address,
    pub token_mint: Address,
    pub token_vault: Address,
    pub parent_vault: Address,
    pub beneficiary_vault: Address,
    pub beneficiary_token_account: Address,
    pub vesting_address: Address,
}

/// The re-derived addresses a creation is validated against.
#[derive(Clone, Copy, Debug)]
pub struct CreateDerived {
    pub vesting_address: Address,
    pub beneficiary_vault: Address,
    pub vault_authority: Address,
    pub vault_auth_bump: u8,
}

/// The addresses a creation must re-derive, composed from the derivation
/// names. `None` when any single derivation finds no bump.
pub open spec fn spec_create_derived(
    admin: Address,
    beneficiary: Address,
    token_mint: Address,
    token_vault: Address,
    vesting_id: u64,
    program_id: Address,
) -> Option<CreateDerived> {
    let vest = pda_of(vesting_seeds(beneficiary@, token_mint@, vesting_id), program_id@);
    let vault = pda_of(vault_seeds(beneficiary@, token_mint@, vesting_id), program_id@);
    let auth = pda_of(vault_auth_seeds(admin@, token_vault@), program_id@);
    if vest is None || vault is None || auth is None {
        None
    } else {
        Some(
            CreateDerived {
                vesting_address: vest->Some_0.0,
                beneficiary_vault: vault->Some_0.0,
                vault_authority: auth->Some_0.0,
                vault_auth_bump: auth->Some_0.1,
            },
        )
    }
}

/// Re-derives the record address, the beneficiary vault and the custody
/// authority of a creation.
pub fn derive_create_addresses(
    admin: &Address,
    beneficiary: &Address,
    token_mint: &Address,
    token_vault: &Address,
    vesting_id: u64,
    program_id: &Address,
) -> (r: Option<CreateDerived>)
    ensures
        r == spec_create_derived(
            *admin,
            *beneficiary,
            *token_mint,
            *token_vault,
            vesting_id,
            *program_id,
        ),
{
    let vest = match derive_vesting_address(beneficiary, token_mint, vesting_id, program_id) {
        Some(v) => v,
        None => {
            return None;
        },
    };
    let vault = match derive_vault_address(beneficiary, token_mint, vesting_id, program_id) {
        Some(v) => v,
        None => {
            return None;
        },
    };
    let auth = match derive_vault_authority(admin, token_vault, program_id) {
        Some(a) => a,
        None => {
            return None;
        },
    };
    Some(
        CreateDerived {
            vesting_address: vest.0,
            beneficiary_vault: vault.0,
            vault_authority: auth.0,
            vault_auth_bump: auth.1,
        },
    )
}

/// The record a successful creation persists: active, with the caller's
/// amounts and times, the validated addresses, and no release recorded yet.
pub open spec fn spec_new_vesting(params: VestingParams, accts: CreateAccounts) -> VestingAccount {
    VestingAccount {
        beneficiary: accts.beneficiary,
        total_amount: params.total_amount,
        released_amount: params.released_amount,
        start_time: params.start_time,
        end_time: params.end_time,
        last_release_time: 0,
        token_mint: accts.token_mint,
        token_vault: accts.token_vault,
        beneficiary_vault: accts.beneficiary_vault,
        category: params.category,
        is_active: true,
        destination_token_account: accts.beneficiary_token_account,
        parent_vault: accts.parent_vault,
    }
}

/// The ordered gates of creation: the registered admin, the re-derived record
/// and vault addresses, a token registered under this admin, a positive
/// total, distinct vaults, and an initial released amount within the total.
pub open spec fn spec_check_create(
    cfg: AdminConfig,
    info: TokenInfo,
    params: VestingParams,
    accts: CreateAccounts,
    d: CreateDerived,
) -> Result<(), VestingError> {
    if cfg.admin != accts.admin {
        Err(VestingError::Unauthorized)
    } else if accts.vesting_address != d.vesting_address {
        Err(VestingError::Unauthorized)
    } else if accts.beneficiary_vault != d.beneficiary_vault {
        Err(VestingError::Unauthorized)
    } else if info.token_mint != accts.token_mint {
        Err(VestingError::InvalidToken)
    } else if params.total_amount == 0 {
        Err(VestingError::InvalidParameters)
    } else if accts.beneficiary_vault == accts.parent_vault {
        Err(VestingError::InvalidParameters)
    } else if params.released_amount > params.total_amount {
        Err(VestingError::InvalidParameters)
    } else {
        Ok(())
    }
}

/// The ordered gates of child creation. The total may be zero here; instead a
/// named parent vesting must carry a non-empty schedule.
pub open spec fn spec_check_user_create(
    cfg: AdminConfig,
    info: TokenInfo,
    params: VestingParams,
    accts: CreateAccounts,
    parent_plans: Seq<crate::state::YearlyPlan>,
    d: CreateDerived,
) -> Result<(), VestingError> {
    if cfg.admin != accts.admin {
        Err(VestingError::Unauthorized)
    } else if accts.vesting_address != d.vesting_address {
        Err(VestingError::Unauthorized)
    } else if accts.beneficiary_vault != d.beneficiary_vault {
        Err(VestingError::Unauthorized)
    } else if info.token_mint != accts.token_mint {
        Err(VestingError::InvalidToken)
    } else if accts.beneficiary_vault == accts.parent_vault {
        Err(VestingError::InvalidParameters)
    } else if parent_plans.len() == 0 {
        Err(VestingError::ParentPlanNotFound)
    } else if params.released_amount > params.total_amount {
        Err(VestingError::InvalidParameters)
    } else {
        Ok(())
    }
}

/// The funding transfer of a creation: the unreleased remainder moves from
/// the parent vault into the beneficiary vault, signed by the derived custody
/// authority.
pub open spec fn spec_funding_transfer(
    params: VestingParams,
    accts: CreateAccounts,
    d: CreateDerived,
) -> TransferOrder {
    TransferOrder {
        amount: (params.total_amount - params.released_amount) as u64,
        from: accts.parent_vault,
        to: accts.beneficiary_vault,
        authority: d.vault_authority,
    }
}

/// Validates a creation and, when every gate passes, returns the record to
/// persist together with the funding transfer to hand to the custody ledger.
/// `None` exactly when a derivation finds no bump.
pub fn create_vesting(
    cfg: &AdminConfig,
    info: &TokenInfo,
    params: &VestingParams,
    accts: &CreateAccounts,
    program_id: &Address,
) -> (r: Option<Result<(VestingAccount, TransferOrder), VestingError>>)
    ensures
        r is Some <==> spec_create_derived(
            accts.admin,
            accts.beneficiary,
            accts.token_mint,
            accts.token_vault,
            params.vesting_id,
            *program_id,
        ) is Some,
        r matches Some(res) ==> {
            let d = spec_create_derived(
                accts.admin,
                accts.beneficiary,
                accts.token_mint,
                accts.token_vault,
                params.vesting_id,
                *program_id,
            )->Some_0;
            &&& (res matches Err(e) ==> spec_check_create(*cfg, *info, *params, *accts, d)
                == Err::<(), VestingError>(e))
            &&& (res matches Ok(p) ==> spec_check_create(*cfg, *info, *params, *accts, d) is Ok
                && p.0 == spec_new_vesting(*params, *accts) && p.1 == spec_funding_transfer(
                *params,
                *accts,
                d,
            ))
        },
{
    let d = match derive_create_addresses(
        &accts.admin,
        &accts.beneficiary,
        &accts.token_mint,
        &accts.token_vault,
        params.vesting_id,
        program_id,
    ) {
        Some(d) => d,
        None => {
            return None;
        },
    };
    if !addr_eq(&cfg.admin, &accts.admin) {
        return Some(Err(VestingError::Unauthorized));
    }
    if !addr_eq(&accts.vesting_address, &d.vesting_address) {
        return Some(Err(VestingError::Unauthorized));
    }
    if !addr_eq(&accts.beneficiary_vault, &d.beneficiary_vault) {
        return Some(Err(VestingError::Unauthorized));
    }
    if !addr_eq(&info.token_mint, &accts.token_mint) {
        return Some(Err(VestingError::InvalidToken));
    }
    if params.total_amount == 0 {
        return Some(Err(VestingError::InvalidParameters));
    }
    if addr_eq(&accts.beneficiary_vault, &accts.parent_vault) {
        return Some(Err(VestingError::InvalidParameters));
    }
    if params.released_amount > params.total_amount {
        return Some(Err(VestingError::InvalidParameters));
    }
    let record = VestingAccount {
        beneficiary: accts.beneficiary,
        total_amount: params.total_amount,
        released_amount: params.released_amount,
        start_time: params.start_time,
        end_time: params.end_time,
        last_release_time: 0,
        token_mint: accts.token_mint,
        token_vault: accts.token_vault,
        beneficiary_vault: accts.beneficiary_vault,
        category: params.category.clone(),
        is_active: true,
        destination_token_account: accts.beneficiary_token_account,
        parent_vault: accts.parent_vault,
    };
    let transfer = TransferOrder {
        amount: params.total_amount - params.released_amount,
        from: accts.parent_vault,
        to: accts.beneficiary_vault,
        authority: d.vault_authority,
    };
    Some(Ok((record, transfer)))
}

/// Validates a child creation against the parent's schedule and, when every
/// gate passes, returns the record to persist and the funding transfer.
/// `None` exactly when a derivation finds no bump.
pub fn user_create_vesting(
    cfg: &AdminConfig,
    info: &TokenInfo,
    params: &VestingParams,
    accts: &CreateAccounts,
    parent_chunk: &VestingPlanChunk,
    program_id: &Address,
) -> (r: Option<Result<(VestingAccount, TransferOrder), VestingError>>)
    ensures
        r is Some <==> spec_create_derived(
            accts.admin,
            accts.beneficiary,
            accts.token_mint,
            accts.token_vault,
            params.vesting_id,
            *program_id,
        ) is Some,
        r matches Some(res) ==> {
            let d = spec_create_derived(
                accts.admin,
                accts.beneficiary,
                accts.token_mint,
                accts.token_vault,
                params.vesting_id,
                *program_id,
            )->Some_0;
            &&& (res matches Err(e) ==> spec_check_user_create(
                *cfg,
                *info,
                *params,
                *accts,
                parent_chunk.plans@,
                d,
            ) == Err::<(), VestingError>(e))
            &&& (res matches Ok(p) ==> spec_check_user_create(
                *cfg,
                *info,
                *params,
                *accts,
                parent_chunk.plans@,
                d,
            ) is Ok && p.0 == spec_new_vesting(*params, *accts) && p.1 == spec_funding_transfer(
                *params,
                *accts,
                d,
            ))
        },
{
    let d = match derive_create_addresses(
        &accts.admin,
        &accts.beneficiary,
        &accts.token_mint,
        &accts.token_vault,
        params.vesting_id,
        program_id,
    ) {
        Some(d) => d,
        None => {
            return None;
        },
    };
    if !addr_eq(&cfg.admin, &accts.admin) {
        return Some(Err(VestingError::Unauthorized));
    }
    if !addr_eq(&accts.vesting_address, &d.vesting_address) {
        return Some(Err(VestingError::Unauthorized));
    }
    if !addr_eq(&accts.beneficiary_vault, &d.beneficiary_vault) {
        return Some(Err(VestingError::Unauthorized));
    }
    if !addr_eq(&info.token_mint, &accts.token_mint) {
        return Some(Err(VestingError::InvalidToken));
    }
    if addr_eq(&accts.beneficiary_vault, &accts.parent_vault) {
        return Some(Err(VestingError::InvalidParameters));
    }
    if parent_chunk.plans.len() == 0 {
        return Some(Err(VestingError::ParentPlanNotFound));
    }
    if params.released_amount > params.total_amount {
        return Some(Err(VestingError::InvalidParameters));
    }
    let record = VestingAccount {
        beneficiary: accts.beneficiary,
        total_amount: params.total_amount,
        released_amount: params.released_amount,
        start_time: params.start_time,
        end_time: params.end_time,
        last_release_time: 0,
        token_mint: accts.token_mint,
        token_vault: accts.token_vault,
        beneficiary_vault: accts.beneficiary_vault,
        category: params.category.clone(),
        is_active: true,
        destination_token_account: accts.beneficiary_token_account,
        parent_vault: accts.parent_vault,
    };
    let transfer = TransferOrder {
        amount: params.total_amount - params.released_amount,
        from: accts.parent_vault,
        to: accts.beneficiary_vault,
        authority: d.vault_authority,
    };
    Some(Ok((record, transfer)))
}

} // verus!
