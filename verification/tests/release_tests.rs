use vesting::addresses::{derive_ata, derive_plans_address, derive_vault_address, derive_vesting_address};
use vesting::errors::VestingError;
use vesting::release::{apply_release, do_vesting, ReleaseAccounts, ReleaseRequest};
use vesting::state::{AdminConfig, TokenInfo, VestingAccount, VestingPlanChunk, YearlyPlan};

fn addr(n: u8) -> [u8; 32] {
    [n; 32]
}

const PROGRAM_ID: [u8; 32] = [7; 32];
const ADMIN: [u8; 32] = [3; 32];
const BENEFICIARY: [u8; 32] = [1; 32];
const MINT: [u8; 32] = [2; 32];
const TOKEN_VAULT: [u8; 32] = [4; 32];
const MINT_WALLET: [u8; 32] = [9; 32];
const VESTING_ID: u64 = 11;

fn plan(release_time: i64, amount: u64, released: bool) -> YearlyPlan {
    YearlyPlan { release_time, amount, released }
}

fn fixture(plans: Vec<YearlyPlan>) -> (VestingAccount, VestingPlanChunk, AdminConfig, TokenInfo, ReleaseAccounts) {
    let vesting_address = derive_vesting_address(&BENEFICIARY, &MINT, VESTING_ID, &PROGRAM_ID)
        .unwrap()
        .0;
    let plan_chunk_address = derive_plans_address(&vesting_address, &PROGRAM_ID).unwrap().0;
    let origin = derive_vault_address(&BENEFICIARY, &MINT, VESTING_ID, &PROGRAM_ID).unwrap().0;
    let destination = derive_ata(&BENEFICIARY, &MINT).unwrap();
    let vesting = VestingAccount {
        beneficiary: BENEFICIARY,
        total_amount: 1000,
        released_amount: 0,
        start_time: 0,
        end_time: 10_000,
        last_release_time: 0,
        token_mint: MINT,
        token_vault: TOKEN_VAULT,
        beneficiary_vault: origin,
        category: String::from("Team"),
        is_active: true,
        destination_token_account: destination,
        parent_vault: addr(6),
    };
    let chunk = VestingPlanChunk { vesting_account: vesting_address, plans };
    let cfg = AdminConfig { admin: ADMIN };
    let info = TokenInfo {
        token_name: String::from("Token"),
        token_symbol: String::from("TOK"),
        total_supply: 1_000_000,
        token_mint: MINT,
        mint_wallet_address: MINT_WALLET,
    };
    let accts = ReleaseAccounts {
        admin: ADMIN,
        beneficiary: BENEFICIARY,
        token_mint: MINT,
        token_vault: TOKEN_VAULT,
        vesting_address,
        plan_chunk_address,
        origin_token_account: origin,
        destination_address: destination,
        destination_owner: BENEFICIARY,
        destination_mint: MINT,
    };
    (vesting, chunk, cfg, info, accts)
}

fn request(amount: u64, vesting_time: i64) -> ReleaseRequest {
    ReleaseRequest { amount, vesting_time, vesting_id: VESTING_ID }
}

#[test]
fn successful_release_moves_one_entry() {
    let (mut vesting, mut chunk, cfg, info, accts) =
        fixture(vec![plan(100, 250, false), plan(200, 750, false)]);
    let req = request(250, 100);
    let res = do_vesting(&vesting, &chunk, &cfg, &info, &req, &accts, &PROGRAM_ID, 150)
        .unwrap()
        .unwrap();
    assert_eq!(res.plan_index, 0);
    assert_eq!(res.transfer.amount, 250);
    assert_eq!(res.transfer.from, accts.origin_token_account);
    assert_eq!(res.transfer.to, accts.destination_address);
    apply_release(&mut vesting, &mut chunk, res.plan_index, req.amount, 150).unwrap();
    assert_eq!(vesting.released_amount, 250);
    assert_eq!(vesting.last_release_time, 150);
    assert!(chunk.plans[0].released);
    assert!(!chunk.plans[1].released);
}

#[test]
fn released_amount_tracks_sum_of_released_entries() {
    let (mut vesting, mut chunk, cfg, info, accts) =
        fixture(vec![plan(100, 250, false), plan(200, 750, false)]);
    let r1 = do_vesting(&vesting, &chunk, &cfg, &info, &request(250, 100), &accts, &PROGRAM_ID, 150)
        .unwrap()
        .unwrap();
    apply_release(&mut vesting, &mut chunk, r1.plan_index, 250, 150).unwrap();
    let r2 = do_vesting(&vesting, &chunk, &cfg, &info, &request(750, 200), &accts, &PROGRAM_ID, 250)
        .unwrap()
        .unwrap();
    apply_release(&mut vesting, &mut chunk, r2.plan_index, 750, 250).unwrap();
    let sum: u64 = chunk.plans.iter().filter(|p| p.released).map(|p| p.amount).sum();
    assert_eq!(vesting.released_amount, sum);
    assert!(vesting.released_amount <= vesting.total_amount);
}

#[test]
fn second_release_of_same_time_is_already_released() {
    let (mut vesting, mut chunk, cfg, info, accts) =
        fixture(vec![plan(100, 250, false), plan(200, 750, false)]);
    let req = request(250, 100);
    let res = do_vesting(&vesting, &chunk, &cfg, &info, &req, &accts, &PROGRAM_ID, 150)
        .unwrap()
        .unwrap();
    apply_release(&mut vesting, &mut chunk, res.plan_index, 250, 150).unwrap();
    let released_before = vesting.released_amount;
    let plans_before: Vec<YearlyPlan> = chunk.plans.clone();
    let second = do_vesting(&vesting, &chunk, &cfg, &info, &req, &accts, &PROGRAM_ID, 160).unwrap();
    assert!(matches!(second, Err(VestingError::AlreadyReleased)));
    assert_eq!(vesting.released_amount, released_before);
    assert_eq!(chunk.plans.len(), plans_before.len());
    for (a, b) in chunk.plans.iter().zip(plans_before.iter()) {
        assert_eq!(a, b);
    }
}

#[test]
fn replay_before_last_release_hits_temporal_gate() {
    let (mut vesting, mut chunk, cfg, info, accts) =
        fixture(vec![plan(100, 250, false), plan(110, 100, false)]);
    let res = do_vesting(&vesting, &chunk, &cfg, &info, &request(250, 100), &accts, &PROGRAM_ID, 150)
        .unwrap()
        .unwrap();
    apply_release(&mut vesting, &mut chunk, res.plan_index, 250, 150).unwrap();
    let replay = do_vesting(&vesting, &chunk, &cfg, &info, &request(100, 110), &accts, &PROGRAM_ID, 140)
        .unwrap();
    assert!(matches!(replay, Err(VestingError::VestingNotReached)));
}

#[test]
fn wrong_admin_is_unauthorized() {
    let (vesting, chunk, cfg, info, mut accts) = fixture(vec![plan(100, 250, false)]);
    accts.admin = addr(99);
    let res = do_vesting(&vesting, &chunk, &cfg, &info, &request(250, 100), &accts, &PROGRAM_ID, 150)
        .unwrap();
    assert!(matches!(res, Err(VestingError::Unauthorized)));
}

#[test]
fn inactive_vesting_is_rejected() {
    let (mut vesting, chunk, cfg, info, accts) = fixture(vec![plan(100, 250, false)]);
    vesting.is_active = false;
    let res = do_vesting(&vesting, &chunk, &cfg, &info, &request(250, 100), &accts, &PROGRAM_ID, 150)
        .unwrap();
    assert!(matches!(res, Err(VestingError::NotActive)));
}

#[test]
fn future_time_is_not_reached() {
    let (vesting, chunk, cfg, info, accts) = fixture(vec![plan(100, 250, false)]);
    let res = do_vesting(&vesting, &chunk, &cfg, &info, &request(250, 100), &accts, &PROGRAM_ID, 50)
        .unwrap();
    assert!(matches!(res, Err(VestingError::VestingNotReached)));
}

#[test]
fn unknown_time_is_invalid_parameters() {
    let (vesting, chunk, cfg, info, accts) = fixture(vec![plan(100, 250, false)]);
    let res = do_vesting(&vesting, &chunk, &cfg, &info, &request(250, 123), &accts, &PROGRAM_ID, 150)
        .unwrap();
    assert!(matches!(res, Err(VestingError::InvalidParameters)));
}

#[test]
fn amount_mismatch_is_invalid_parameters() {
    let (vesting, chunk, cfg, info, accts) = fixture(vec![plan(100, 250, false)]);
    let res = do_vesting(&vesting, &chunk, &cfg, &info, &request(999, 100), &accts, &PROGRAM_ID, 150)
        .unwrap();
    assert!(matches!(res, Err(VestingError::InvalidParameters)));
}

#[test]
fn wrong_destination_mint_is_invalid_mint() {
    let (vesting, chunk, cfg, info, mut accts) = fixture(vec![plan(100, 250, false)]);
    accts.destination_mint = addr(77);
    let res = do_vesting(&vesting, &chunk, &cfg, &info, &request(250, 100), &accts, &PROGRAM_ID, 150)
        .unwrap();
    assert!(matches!(res, Err(VestingError::InvalidMint)));
}

#[test]
fn arbitrary_destination_is_unauthorized() {
    let (vesting, chunk, cfg, info, mut accts) = fixture(vec![plan(100, 250, false)]);
    accts.destination_address = addr(88);
    let res = do_vesting(&vesting, &chunk, &cfg, &info, &request(250, 100), &accts, &PROGRAM_ID, 150)
        .unwrap();
    assert!(matches!(res, Err(VestingError::Unauthorized)));
}

#[test]
fn mint_wallet_ata_is_accepted_destination() {
    let (vesting, chunk, cfg, info, mut accts) = fixture(vec![plan(100, 250, false)]);
    accts.destination_address = derive_ata(&MINT_WALLET, &MINT).unwrap();
    accts.destination_owner = MINT_WALLET;
    let res = do_vesting(&vesting, &chunk, &cfg, &info, &request(250, 100), &accts, &PROGRAM_ID, 150)
        .unwrap();
    assert!(res.is_ok());
}

#[test]
fn forged_origin_vault_is_unauthorized() {
    let (vesting, chunk, cfg, info, mut accts) = fixture(vec![plan(100, 250, false)]);
    accts.origin_token_account = addr(66);
    let res = do_vesting(&vesting, &chunk, &cfg, &info, &request(250, 100), &accts, &PROGRAM_ID, 150)
        .unwrap();
    assert!(matches!(res, Err(VestingError::Unauthorized)));
}

#[test]
fn overflow_on_apply_is_reported_and_leaves_state() {
    let (mut vesting, mut chunk, _cfg, _info, _accts) = fixture(vec![plan(100, 250, false)]);
    vesting.released_amount = u64::MAX - 10;
    let res = apply_release(&mut vesting, &mut chunk, 0, 250, 150);
    assert!(matches!(res, Err(VestingError::Overflow)));
    assert_eq!(vesting.released_amount, u64::MAX - 10);
    assert_eq!(vesting.last_release_time, 0);
    assert!(!chunk.plans[0].released);
}

#[test]
fn duplicate_times_release_first_match_only() {
    let (mut vesting, mut chunk, cfg, info, accts) =
        fixture(vec![plan(100, 250, false), plan(100, 250, false)]);
    let res = do_vesting(&vesting, &chunk, &cfg, &info, &request(250, 100), &accts, &PROGRAM_ID, 150)
        .unwrap()
        .unwrap();
    assert_eq!(res.plan_index, 0);
    apply_release(&mut vesting, &mut chunk, res.plan_index, 250, 150).unwrap();
    assert!(chunk.plans[0].released);
    assert!(!chunk.plans[1].released);
    let second = do_vesting(&vesting, &chunk, &cfg, &info, &request(250, 100), &accts, &PROGRAM_ID, 160)
        .unwrap();
    assert!(matches!(second, Err(VestingError::AlreadyReleased)));
}
