//! Deterministic, key-less sub-account derivation.
//!
//! A vault or config address is a pure function of a seed tuple (a tag plus
//! ordered identifiers) and the program's own identifier, steered off the
//! space of addresses with private keys by a small "bump" integer. The
//! derivation itself is the ledger runtime's; this module names its results
//! and builds the verified `derive` / `verify` pair every fund-bearing
//! operation relies on.

use vstd::prelude::*;
use anchor_lang::solana_program::pubkey::Pubkey;

verus! {

/// A ledger account identifier: 32 opaque bytes.
#[derive(Clone, Copy, Debug)]
pub struct Address {
    pub bytes: [u8; 32],
}

impl View for Address {
    type V = Seq<u8>;

    open spec fn view(&self) -> Seq<u8> {
        self.bytes@
    }
}

impl PartialEq for Address {
    fn eq(&self, other: &Address) -> (r: bool) {
        let mut i: usize = 0;
        while i < 32
            invariant
                i <= 32,
                forall|j: int| 0 <= j < i ==> self.bytes@[j] == other.bytes@[j],
            decreases 32 - i,
        {
            if self.bytes[i] != other.bytes[i] {
                assert(self@ != other@);
                return false;
            }
            i += 1;
        }
        assert(self@ =~= other@);
        true
    }
}

impl vstd::std_specs::cmp::PartialEqSpecImpl for Address {
    open spec fn obeys_eq_spec() -> bool {
        true
    }

    open spec fn eq_spec(&self, other: &Address) -> bool {
        self@ == other@
    }
}

impl Eq for Address {}

/// The seed tuple and bump a key-less account authenticates with in place
/// of a signature: re-deriving the address from them is the proof.
pub struct DerivationProof {
    pub seeds: Vec<Vec<u8>>,
    pub bump: u8,
}

/// The seed tuple as the derivation sees it: one byte sequence per seed.
pub open spec fn seeds_view(seeds: Vec<Vec<u8>>) -> Seq<Seq<u8>> {
    seeds@.map_values(|s: Vec<u8>| s@)
}

/// What the runtime's bump search returns for a seed tuple and program id:
/// the derived address and the chosen bump, or nothing when no bump steers
/// the tuple off the curve or the tuple is over the seed limits.
pub uninterp spec fn find_pda_of(seeds: Seq<Seq<u8>>, program_id: Seq<u8>) -> Option<(Seq<u8>, u8)>;

/// What the runtime's single-shot derivation returns for a full seed tuple
/// (bump included) and program id: the derived address, or nothing when the
/// tuple is over the seed limits or the result would have a private key.
pub uninterp spec fn create_pda_of(seeds: Seq<Seq<u8>>, program_id: Seq<u8>) -> Option<Seq<u8>>;

/// The derivation proof at the heart of every vault-signed operation:
/// `addr` is exactly what the seed tuple extended by `bump` derives to.
pub open spec fn pda_checks_out(addr: Seq<u8>, seeds: Seq<Seq<u8>>, bump: u8, program_id: Seq<u8>) -> bool {
    create_pda_of(seeds.push(seq![bump]), program_id) == Some(addr)
}

/// Relies on solana `Pubkey::try_find_program_address`: deterministic in the
/// seeds and program id, and on success the returned bump, appended as a
/// final one-byte seed, makes `create_program_address` re-derive the very
/// same address (its documented contract).
#[verifier::external_body]
fn solana_find_program_address(seeds: &Vec<Vec<u8>>, program_id: &Address) -> (r: Option<(Address, u8)>)
    ensures
        r is Some <==> find_pda_of(seeds_view(*seeds), program_id@) is Some,
        r matches Some(ab) ==> find_pda_of(seeds_view(*seeds), program_id@) == Some((ab.0@, ab.1)),
        r matches Some(ab) ==> pda_checks_out(ab.0@, seeds_view(*seeds), ab.1, program_id@),
{
    let mut refs: Vec<&[u8]> = Vec::new();
    for s in seeds.iter() {
        refs.push(s.as_slice());
    }
    let pid = Pubkey::new_from_array(program_id.bytes);
    Pubkey::try_find_program_address(&refs, &pid).map(|(pk, bump)| (Address { bytes: pk.to_bytes() }, bump))
}

/// Relies on solana `Pubkey::create_program_address`: deterministic in the
/// seeds and program id; an error exactly when the seeds are over the
/// limits or the derived bytes fall on the curve.
#[verifier::external_body]
fn solana_create_program_address(seeds: &Vec<Vec<u8>>, program_id: &Address) -> (r: Option<Address>)
    ensures
        r is Some <==> create_pda_of(seeds_view(*seeds), program_id@) is Some,
        r matches Some(a) ==> create_pda_of(seeds_view(*seeds), program_id@) == Some(a@),
{
    let mut refs: Vec<&[u8]> = Vec::new();
    for s in seeds.iter() {
        refs.push(s.as_slice());
    }
    let pid = Pubkey::new_from_array(program_id.bytes);
    Pubkey::create_program_address(&refs, &pid).ok().map(|pk| Address { bytes: pk.to_bytes() })
}

/// Relies on `bytemuck::bytes_of`: the byte representation of a `u8` is the
/// single byte itself.
#[verifier::external_body]
fn bump_seed_bytes(bump: u8) -> (r: Vec<u8>)
    ensures
        r@ == seq![bump],
{
    bytemuck::bytes_of(&bump).to_vec()
}

/// The tag that starts every pool-config seed tuple: the bytes of "config".
pub open spec fn pool_config_seed_spec() -> Seq<u8> {
    seq![99u8, 111u8, 110u8, 102u8, 105u8, 103u8]
}

/// The tag that starts every token-vault seed tuple: the bytes of "token".
pub open spec fn pool_token_seed_spec() -> Seq<u8> {
    seq![116u8, 111u8, 107u8, 101u8, 110u8]
}

/// The tag that starts every native-vault seed tuple: the bytes of "native".
pub open spec fn pool_native_seed_spec() -> Seq<u8> {
    seq![110u8, 97u8, 116u8, 105u8, 118u8, 101u8]
}

/// The pool-config seed tag as runtime bytes.
pub fn pool_config_seed() -> (r: Vec<u8>)
    ensures
        r@ == pool_config_seed_spec(),
{
    let mut r: Vec<u8> = Vec::new();
    r.push(99);
    r.push(111);
    r.push(110);
    r.push(102);
    r.push(105);
    r.push(103);
    proof {
        assert(r@ =~= pool_config_seed_spec());
    }
    r
}

/// The token-vault seed tag as runtime bytes.
pub fn pool_token_seed() -> (r: Vec<u8>)
    ensures
        r@ == pool_token_seed_spec(),
{
    let mut r: Vec<u8> = Vec::new();
    r.push(116);
    r.push(111);
    r.push(107);
    r.push(101);
    r.push(110);
    proof {
        assert(r@ =~= pool_token_seed_spec());
    }
    r
}

/// The native-vault seed tag as runtime bytes.
pub fn pool_native_seed() -> (r: Vec<u8>)
    ensures
        r@ == pool_native_seed_spec(),
{
    let mut r: Vec<u8> = Vec::new();
    r.push(110);
    r.push(97);
    r.push(116);
    r.push(105);
    r.push(118);
    r.push(101);
    proof {
        assert(r@ =~= pool_native_seed_spec());
    }
    r
}

/// The config record's seed tuple: tag, pool authority, token mint. The
/// (authority, token mint) pair is the pool's identity, so exactly one
/// config address exists per pair.
pub open spec fn config_seeds_spec(authority: Seq<u8>, mint: Seq<u8>) -> Seq<Seq<u8>> {
    seq![pool_config_seed_spec(), authority, mint]
}

/// A vault's seed tuple: its tag, then the pool authority, the token mint
/// and the config record's own address.
pub open spec fn vault_seeds_spec(tag: Seq<u8>, authority: Seq<u8>, mint: Seq<u8>, config: Seq<u8>) -> Seq<Seq<u8>> {
    seq![tag, authority, mint, config]
}

/// An address as a heap-allocated seed.
pub fn address_to_vec(a: &Address) -> (r: Vec<u8>)
    ensures
        r@ == a@,
{
    let mut r: Vec<u8> = Vec::new();
    let mut i: usize = 0;
    while i < 32
        invariant
            i <= 32,
            r@.len() == i,
            forall|j: int| 0 <= j < i ==> r@[j] == a.bytes@[j],
        decreases 32 - i,
    {
        r.push(a.bytes[i]);
        i += 1;
    }
    proof {
        assert(r@ =~= a@);
    }
    r
}

/// Builds the config record's seed tuple as runtime bytes.
pub fn config_seeds(authority: &Address, mint: &Address) -> (r: Vec<Vec<u8>>)
    ensures
        seeds_view(r) == config_seeds_spec(authority@, mint@),
{
    let mut r: Vec<Vec<u8>> = Vec::new();
    r.push(pool_config_seed());
    r.push(address_to_vec(authority));
    r.push(address_to_vec(mint));
    proof {
        assert(seeds_view(r) =~~= config_seeds_spec(authority@, mint@));
    }
    r
}

/// Builds a vault's seed tuple as runtime bytes.
pub fn vault_seeds(tag: Vec<u8>, authority: &Address, mint: &Address, config: &Address) -> (r: Vec<Vec<u8>>)
    ensures
        seeds_view(r) == vault_seeds_spec(tag@, authority@, mint@, config@),
{
    let ghost tag_plain = tag@;
    let mut r: Vec<Vec<u8>> = Vec::new();
    r.push(tag);
    r.push(address_to_vec(authority));
    r.push(address_to_vec(mint));
    r.push(address_to_vec(config));
    proof {
        assert(seeds_view(r) =~~= vault_seeds_spec(tag_plain, authority@, mint@, config@));
    }
    r
}

/// Derives the key-less sub-account address for a seed tuple, together with
/// the bump that steers it off the space of signable addresses. The result
/// always satisfies the proof relation that `verify_address` re-checks.
pub fn derive_address(seeds: &Vec<Vec<u8>>, program_id: &Address) -> (r: Option<(Address, u8)>)
    ensures
        r is Some <==> find_pda_of(seeds_view(*seeds), program_id@) is Some,
        r matches Some(ab) ==> find_pda_of(seeds_view(*seeds), program_id@) == Some((ab.0@, ab.1)),
        r matches Some(ab) ==> pda_checks_out(ab.0@, seeds_view(*seeds), ab.1, program_id@),
{
    solana_find_program_address(seeds, program_id)
}

/// Recomputes the derivation for a caller-supplied address and bump and
/// compares: the sole substitute for an access-control list. A `false`
/// answer is the caller's `InvalidAccount` condition.
pub fn verify_address(expected: &Address, seeds: Vec<Vec<u8>>, bump: u8, program_id: &Address) -> (r: bool)
    ensures
        r == pda_checks_out(expected@, seeds_view(seeds), bump, program_id@),
{
    let ghost plain = seeds_view(seeds);
    let mut with_bump = seeds;
    with_bump.push(bump_seed_bytes(bump));
    proof {
        assert(seeds_view(with_bump) =~~= plain.push(seq![bump]));
    }
    match solana_create_program_address(&with_bump, program_id) {
        Some(a) => a == *expected,
        None => false,
    }
}

} // verus!
