//! Deterministic address derivation.
//!
//! Every custody principal and record address of the ledger is derived from a
//! fixed label, ordered seed bytes and the originating program id, through the
//! program-derived-address search of the outside Solana SDK. The search result
//! is a pure function of its inputs; [`pda_of`] names it, and every operation
//! re-derives and compares instead of trusting a caller-supplied address.

use vstd::prelude::*;

use crate::state::Address;

verus! {

/// What the program-derived-address search returns for the given seed byte
/// sequences and program id: the found off-curve address and its bump, or
/// `None` in the statistically improbable case that no bump yields an
/// off-curve point. The result depends on the arguments alone.
pub uninterp spec fn pda_of(seeds: Seq<Seq<u8>>, program_id: Seq<u8>) -> Option<(Address, u8)>;

/// The views of a sequence of byte vectors.
pub open spec fn views_of(s: Seq<Vec<u8>>) -> Seq<Seq<u8>> {
    s.map_values(|v: Vec<u8>| v@)
}

/// Relies on `Pubkey::try_find_program_address` of the solana-pubkey crate
/// (re-exported by anchor-lang): a deterministic search that hashes the seeds,
/// a candidate bump and the program id with SHA-256 until the result is
/// off-curve, returning `None` instead of panicking when no candidate works.
#[verifier::external_body]
fn find_pda(seeds: &Vec<Vec<u8>>, program_id: &Address) -> (r: Option<(Address, u8)>)
    ensures
        r == pda_of(views_of(seeds@), program_id@),
{
    let refs: Vec<&[u8]> = seeds.iter().map(|s| s.as_slice()).collect();
    let pid = anchor_lang::prelude::Pubkey::new_from_array(*program_id);
    anchor_lang::prelude::Pubkey::try_find_program_address(&refs, &pid)
        .map(|(key, bump)| (key.to_bytes(), bump))
}

/// The SPL token program id, decoded from its base58 form
/// `TokenkegQfeZyiNwAJbNbGKPFXCWuBvf9Ss623VQ5DA`.
pub open spec fn spec_spl_token_id() -> Seq<u8> {
    seq![
        6u8, 221, 246, 225, 215, 101, 161, 147, 217, 203, 225, 70, 206, 235, 121, 172,
        28, 180, 133, 237, 95, 91, 55, 145, 58, 140, 245, 133, 126, 255, 0, 169,
    ]
}

/// The associated-token program id, decoded from its base58 form
/// `ATokenGPvbdGVxr1b2hvZbsiqW5xWH25efTNsLJA8knL`.
pub open spec fn spec_ata_program_id() -> Seq<u8> {
    seq![
        140u8, 151, 37, 143, 78, 36, 137, 241, 187, 61, 16, 41, 20, 142, 13, 131,
        11, 90, 19, 153, 218, 255, 16, 132, 4, 142, 123, 216, 219, 233, 248, 89,
    ]
}

/// Relies on `anchor_spl::token::ID`, the SPL token program id constant
/// declared in the spl-token-interface source as base58
/// `TokenkegQfeZyiNwAJbNbGKPFXCWuBvf9Ss623VQ5DA`.
#[verifier::external_body]
fn spl_token_id() -> (r: Address)
    ensures
        r@ == spec_spl_token_id(),
{
    anchor_spl::token::ID.to_bytes()
}

/// Relies on `anchor_spl::associated_token::ID`, the associated-token program
/// id constant declared in the spl-associated-token-account-interface source
/// as base58 `ATokenGPvbdGVxr1b2hvZbsiqW5xWH25efTNsLJA8knL`.
#[verifier::external_body]
fn associated_token_program_id() -> (r: Address)
    ensures
        r@ == spec_ata_program_id(),
{
    anchor_spl::associated_token::ID.to_bytes()
}

/// The seeds of a wallet's canonical receiving address for a token: the
/// wallet, the SPL token program id and the mint, derived under the
/// associated-token program.
pub open spec fn ata_seeds(wallet: Seq<u8>, mint: Seq<u8>) -> Seq<Seq<u8>> {
    seq![wallet, spec_spl_token_id(), mint]
}

/// Relies on `anchor_spl::associated_token::get_associated_token_address`,
/// whose source computes `find_program_address` over the wallet, the SPL token
/// program id and the mint, under the associated-token program id — and
/// panics in the statistically improbable case that no bump exists, which the
/// `requires` excludes.
#[verifier::external_body]
fn ata_address(wallet: &Address, mint: &Address) -> (r: Address)
    requires
        pda_of(ata_seeds(wallet@, mint@), spec_ata_program_id()) is Some,
    ensures
        r == pda_of(ata_seeds(wallet@, mint@), spec_ata_program_id())->Some_0.0,
{
    let w = anchor_lang::prelude::Pubkey::new_from_array(*wallet);
    let m = anchor_lang::prelude::Pubkey::new_from_array(*mint);
    anchor_spl::associated_token::get_associated_token_address(&w, &m).to_bytes()
}

/// Copies an address into a growable seed buffer.
pub fn addr_to_vec(a: &Address) -> (r: Vec<u8>)
    ensures
        r@ == a@,
{
    let mut v: Vec<u8> = Vec::new();
    let mut i: usize = 0;
    while i < 32
        invariant
            i <= 32,
            v@ == a@.subrange(0, i as int),
        decreases 32 - i,
    {
        v.push(a[i]);
        proof {
            assert(a@.subrange(0, i as int).push(a@[i as int]) =~= a@.subrange(0, i as int + 1));
        }
        i = i + 1;
    }
    proof {
        assert(a@.subrange(0, 32) =~= a@);
    }
    v
}

/// Byte-for-byte address equality, the comparison behind every re-derivation
/// guard.
pub fn addr_eq(a: &Address, b: &Address) -> (r: bool)
    ensures
        r <==> *a == *b,
{
    let mut i: usize = 0;
    while i < 32
        invariant
            i <= 32,
            forall|j: int| 0 <= j < i ==> a@[j] == b@[j],
        decreases 32 - i,
    {
        if a[i] != b[i] {
            proof {
                assert(a@[i as int] != b@[i as int]);
            }
            return false;
        }
        i = i + 1;
    }
    proof {
        assert(*a =~= *b);
    }
    true
}

/// The label of a custody vault derivation, the bytes of `vault`.
pub open spec fn spec_seed_vault() -> Seq<u8> {
    seq![118u8, 97, 117, 108, 116]
}

/// The label of a custody authority derivation, the bytes of `vault_auth`.
pub open spec fn spec_seed_vault_auth() -> Seq<u8> {
    seq![118u8, 97, 117, 108, 116, 95, 97, 117, 116, 104]
}

/// The label of a vesting record derivation, the bytes of `vesting`.
pub open spec fn spec_seed_vesting() -> Seq<u8> {
    seq![118u8, 101, 115, 116, 105, 110, 103]
}

/// The label of a schedule derivation, the bytes of `plans`.
pub open spec fn spec_seed_plans() -> Seq<u8> {
    seq![112u8, 108, 97, 110, 115]
}

fn seed_vault() -> (r: Vec<u8>)
    ensures
        r@ == spec_seed_vault(),
{
    let mut v: Vec<u8> = Vec::new();
    v.push(118);
    v.push(97);
    v.push(117);
    v.push(108);
    v.push(116);
    proof {
        assert(v@ =~= spec_seed_vault());
    }
    v
}

fn seed_vault_auth() -> (r: Vec<u8>)
    ensures
        r@ == spec_seed_vault_auth(),
{
    let mut v: Vec<u8> = Vec::new();
    v.push(118);
    v.push(97);
    v.push(117);
    v.push(108);
    v.push(116);
    v.push(95);
    v.push(97);
    v.push(117);
    v.push(116);
    v.push(104);
    proof {
        assert(v@ =~= spec_seed_vault_auth());
    }
    v
}

fn seed_vesting() -> (r: Vec<u8>)
    ensures
        r@ == spec_seed_vesting(),
{
    let mut v: Vec<u8> = Vec::new();
    v.push(118);
    v.push(101);
    v.push(115);
    v.push(116);
    v.push(105);
    v.push(110);
    v.push(103);
    proof {
        assert(v@ =~= spec_seed_vesting());
    }
    v
}

fn seed_plans() -> (r: Vec<u8>)
    ensures
        r@ == spec_seed_plans(),
{
    let mut v: Vec<u8> = Vec::new();
    v.push(112);
    v.push(108);
    v.push(97);
    v.push(110);
    v.push(115);
    proof {
        assert(v@ =~= spec_seed_plans());
    }
    v
}

/// The seeds of a vesting record's address.
pub open spec fn vesting_seeds(beneficiary: Seq<u8>, mint: Seq<u8>, id: u64) -> Seq<Seq<u8>> {
    seq![spec_seed_vesting(), beneficiary, mint, vstd::bytes::spec_u64_to_le_bytes(id)]
}

/// The seeds of a beneficiary's custody vault address.
pub open spec fn vault_seeds(beneficiary: Seq<u8>, mint: Seq<u8>, id: u64) -> Seq<Seq<u8>> {
    seq![spec_seed_vault(), beneficiary, mint, vstd::bytes::spec_u64_to_le_bytes(id)]
}

/// The seeds of the admin's lockup vault address, which carries no id.
pub open spec fn lockup_vault_seeds(admin: Seq<u8>, mint: Seq<u8>) -> Seq<Seq<u8>> {
    seq![spec_seed_vault(), admin, mint]
}

/// The seeds of the custody authority over a vault: a principal without a
/// private key, usable only by this program.
pub open spec fn vault_auth_seeds(admin: Seq<u8>, token_vault: Seq<u8>) -> Seq<Seq<u8>> {
    seq![spec_seed_vault_auth(), admin, token_vault]
}

/// The seeds of the schedule owned by a vesting record.
pub open spec fn plans_seeds(vesting_address: Seq<u8>) -> Seq<Seq<u8>> {
    seq![spec_seed_plans(), vesting_address]
}

/// Derives the address of the vesting record for (beneficiary, token, id).
pub fn derive_vesting_address(
    beneficiary: &Address,
    token_mint: &Address,
    vesting_id: u64,
    program_id: &Address,
) -> (r: Option<(Address, u8)>)
    ensures
        r == pda_of(vesting_seeds(beneficiary@, token_mint@, vesting_id), program_id@),
{
    let mut seeds: Vec<Vec<u8>> = Vec::new();
    seeds.push(seed_vesting());
    seeds.push(addr_to_vec(beneficiary));
    seeds.push(addr_to_vec(token_mint));
    seeds.push(vstd::bytes::u64_to_le_bytes(vesting_id));
    proof {
        assert(views_of(seeds@) =~= vesting_seeds(beneficiary@, token_mint@, vesting_id));
    }
    find_pda(&seeds, program_id)
}

/// Derives the address of the custody vault holding (beneficiary, token, id)'s
/// allocation.
pub fn derive_vault_address(
    beneficiary: &Address,
    token_mint: &Address,
    vesting_id: u64,
    program_id: &Address,
) -> (r: Option<(Address, u8)>)
    ensures
        r == pda_of(vault_seeds(beneficiary@, token_mint@, vesting_id), program_id@),
{
    let mut seeds: Vec<Vec<u8>> = Vec::new();
    seeds.push(seed_vault());
    seeds.push(addr_to_vec(beneficiary));
    seeds.push(addr_to_vec(token_mint));
    seeds.push(vstd::bytes::u64_to_le_bytes(vesting_id));
    proof {
        assert(views_of(seeds@) =~= vault_seeds(beneficiary@, token_mint@, vesting_id));
    }
    find_pda(&seeds, program_id)
}

/// Derives the address of the admin's lockup vault for a token.
pub fn derive_lockup_vault_address(
    admin: &Address,
    token_mint: &Address,
    program_id: &Address,
) -> (r: Option<(Address, u8)>)
    ensures
        r == pda_of(lockup_vault_seeds(admin@, token_mint@), program_id@),
{
    let mut seeds: Vec<Vec<u8>> = Vec::new();
    seeds.push(seed_vault());
    seeds.push(addr_to_vec(admin));
    seeds.push(addr_to_vec(token_mint));
    proof {
        assert(views_of(seeds@) =~= lockup_vault_seeds(admin@, token_mint@));
    }
    find_pda(&seeds, program_id)
}

/// Derives the custody authority over `token_vault`: the principal that signs
/// every outgoing transfer of the ledger.
pub fn derive_vault_authority(
    admin: &Address,
    token_vault: &Address,
    program_id: &Address,
) -> (r: Option<(Address, u8)>)
    ensures
        r == pda_of(vault_auth_seeds(admin@, token_vault@), program_id@),
{
    let mut seeds: Vec<Vec<u8>> = Vec::new();
    seeds.push(seed_vault_auth());
    seeds.push(addr_to_vec(admin));
    seeds.push(addr_to_vec(token_vault));
    proof {
        assert(views_of(seeds@) =~= vault_auth_seeds(admin@, token_vault@));
    }
    find_pda(&seeds, program_id)
}

/// Derives the address of the schedule owned by the vesting record at
/// `vesting_address`.
pub fn derive_plans_address(vesting_address: &Address, program_id: &Address) -> (r: Option<
    (Address, u8),
>)
    ensures
        r == pda_of(plans_seeds(vesting_address@), program_id@),
{
    let mut seeds: Vec<Vec<u8>> = Vec::new();
    seeds.push(seed_plans());
    seeds.push(addr_to_vec(vesting_address));
    proof {
        assert(views_of(seeds@) =~= plans_seeds(vesting_address@));
    }
    find_pda(&seeds, program_id)
}

/// Derives a wallet's canonical receiving address for a token, probing first
/// with the panic-free search so that the outside derivation is only called
/// where a bump exists.
pub fn derive_ata(wallet: &Address, token_mint: &Address) -> (r: Option<Address>)
    ensures
        r is Some <==> pda_of(ata_seeds(wallet@, token_mint@), spec_ata_program_id()) is Some,
        r matches Some(a) ==> a == pda_of(
            ata_seeds(wallet@, token_mint@),
            spec_ata_program_id(),
        )->Some_0.0,
{
    let token_program = spl_token_id();
    let ata_program = associated_token_program_id();
    let mut seeds: Vec<Vec<u8>> = Vec::new();
    seeds.push(addr_to_vec(wallet));
    seeds.push(addr_to_vec(&token_program));
    seeds.push(addr_to_vec(token_mint));
    proof {
        assert(views_of(seeds@) =~= ata_seeds(wallet@, token_mint@));
    }
    match find_pda(&seeds, &ata_program) {
        Some(_) => Some(ata_address(wallet, token_mint)),
        None => None,
    }
}

/// Derivation is deterministic: identical labels, seed bytes and originating
/// program always yield the same address. The complementary claim — that
/// different seed bytes yield a different address — is collision resistance
/// of the underlying hash and is exercised by tests, not proved.
pub proof fn lemma_derivation_deterministic(
    seeds1: Seq<Seq<u8>>,
    seeds2: Seq<Seq<u8>>,
    program_id1: Seq<u8>,
    program_id2: Seq<u8>,
)
    requires
        seeds1 == seeds2,
        program_id1 == program_id2,
    ensures
        pda_of(seeds1, program_id1) == pda_of(seeds2, program_id2),
{
}

} // verus!
