use vesting::addresses::{
    derive_ata, derive_lockup_vault_address, derive_plans_address, derive_vault_address,
    derive_vault_authority, derive_vesting_address,
};

fn addr(n: u8) -> [u8; 32] {
    [n; 32]
}

const PROGRAM_ID: [u8; 32] = [7; 32];

#[test]
fn derivation_is_deterministic() {
    let beneficiary = addr(1);
    let mint = addr(2);
    let a = derive_vesting_address(&beneficiary, &mint, 42, &PROGRAM_ID).unwrap();
    let b = derive_vesting_address(&beneficiary, &mint, 42, &PROGRAM_ID).unwrap();
    assert_eq!(a.0, b.0);
    assert_eq!(a.1, b.1);
}

#[test]
fn seed_change_changes_address() {
    let beneficiary = addr(1);
    let mint = addr(2);
    let base = derive_vesting_address(&beneficiary, &mint, 42, &PROGRAM_ID).unwrap();
    let other_id = derive_vesting_address(&beneficiary, &mint, 43, &PROGRAM_ID).unwrap();
    assert_ne!(base.0, other_id.0);
    let mut beneficiary2 = beneficiary;
    beneficiary2[31] ^= 1;
    let other_seed = derive_vesting_address(&beneficiary2, &mint, 42, &PROGRAM_ID).unwrap();
    assert_ne!(base.0, other_seed.0);
    let other_program = derive_vesting_address(&beneficiary, &mint, 42, &addr(8)).unwrap();
    assert_ne!(base.0, other_program.0);
}

#[test]
fn vesting_address_matches_direct_derivation() {
    let beneficiary = addr(1);
    let mint = addr(2);
    let id: u64 = 42;
    let got = derive_vesting_address(&beneficiary, &mint, id, &PROGRAM_ID).unwrap();
    let pid = anchor_lang::prelude::Pubkey::new_from_array(PROGRAM_ID);
    let expected = anchor_lang::prelude::Pubkey::find_program_address(
        &[b"vesting", &beneficiary, &mint, &id.to_le_bytes()],
        &pid,
    );
    assert_eq!(got.0, expected.0.to_bytes());
    assert_eq!(got.1, expected.1);
}

#[test]
fn vault_address_matches_direct_derivation() {
    let beneficiary = addr(1);
    let mint = addr(2);
    let id: u64 = 5;
    let got = derive_vault_address(&beneficiary, &mint, id, &PROGRAM_ID).unwrap();
    let pid = anchor_lang::prelude::Pubkey::new_from_array(PROGRAM_ID);
    let expected = anchor_lang::prelude::Pubkey::find_program_address(
        &[b"vault", &beneficiary, &mint, &id.to_le_bytes()],
        &pid,
    );
    assert_eq!(got.0, expected.0.to_bytes());
}

#[test]
fn lockup_vault_address_matches_direct_derivation() {
    let admin = addr(3);
    let mint = addr(2);
    let got = derive_lockup_vault_address(&admin, &mint, &PROGRAM_ID).unwrap();
    let pid = anchor_lang::prelude::Pubkey::new_from_array(PROGRAM_ID);
    let expected =
        anchor_lang::prelude::Pubkey::find_program_address(&[b"vault", &admin, &mint], &pid);
    assert_eq!(got.0, expected.0.to_bytes());
}

#[test]
fn vault_authority_matches_direct_derivation() {
    let admin = addr(3);
    let vault = addr(4);
    let got = derive_vault_authority(&admin, &vault, &PROGRAM_ID).unwrap();
    let pid = anchor_lang::prelude::Pubkey::new_from_array(PROGRAM_ID);
    let expected =
        anchor_lang::prelude::Pubkey::find_program_address(&[b"vault_auth", &admin, &vault], &pid);
    assert_eq!(got.0, expected.0.to_bytes());
    assert_eq!(got.1, expected.1);
}

#[test]
fn plans_address_matches_direct_derivation() {
    let vesting_addr = addr(5);
    let got = derive_plans_address(&vesting_addr, &PROGRAM_ID).unwrap();
    let pid = anchor_lang::prelude::Pubkey::new_from_array(PROGRAM_ID);
    let expected =
        anchor_lang::prelude::Pubkey::find_program_address(&[b"plans", &vesting_addr], &pid);
    assert_eq!(got.0, expected.0.to_bytes());
}

#[test]
fn ata_matches_direct_derivation() {
    let wallet = addr(1);
    let mint = addr(2);
    let got = derive_ata(&wallet, &mint).unwrap();
    let expected = anchor_spl::associated_token::get_associated_token_address(
        &anchor_lang::prelude::Pubkey::new_from_array(wallet),
        &anchor_lang::prelude::Pubkey::new_from_array(mint),
    );
    assert_eq!(got, expected.to_bytes());
    assert_ne!(got, wallet);
    assert_ne!(got, mint);
}

#[test]
fn program_id_constants_match_spl_crates() {
    let token: [u8; 32] = [
        6, 221, 246, 225, 215, 101, 161, 147, 217, 203, 225, 70, 206, 235, 121, 172, 28, 180, 133,
        237, 95, 91, 55, 145, 58, 140, 245, 133, 126, 255, 0, 169,
    ];
    let ata: [u8; 32] = [
        140, 151, 37, 143, 78, 36, 137, 241, 187, 61, 16, 41, 20, 142, 13, 131, 11, 90, 19, 153,
        218, 255, 16, 132, 4, 142, 123, 216, 219, 233, 248, 89,
    ];
    assert_eq!(anchor_spl::token::ID.to_bytes(), token);
    assert_eq!(anchor_spl::associated_token::ID.to_bytes(), ata);
}
