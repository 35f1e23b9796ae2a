//! The durable pool record and the plain-value account snapshots that every
//! operation receives from the ledger runtime.

use vstd::prelude::*;
use crate::address::{
    Address, config_seeds, config_seeds_spec, pda_checks_out, pool_native_seed,
    pool_native_seed_spec, pool_token_seed, pool_token_seed_spec, vault_seeds,
    vault_seeds_spec, verify_address,
};

verus! {

/// A snapshot of a lamport-bearing ledger account, together with the
/// capability flag the calling boundary supplies: `is_signer` is true
/// exactly when this account's signature was verified for this call.
#[derive(Clone, Copy, Debug, PartialEq)]
pub struct WalletAccount {
    pub address: Address,
    pub lamports: u64,
    pub data_len: u64,
    pub is_signer: bool,
}

/// A snapshot of a fungible-token ledger account: which mint it holds,
/// which identity may move its balance, and the balance itself.
#[derive(Clone, Copy, Debug, PartialEq)]
pub struct TokenAccount {
    pub address: Address,
    pub mint: Address,
    pub owner: Address,
    pub amount: u64,
}

/// The durable record of a pool: derivation proof exponents for its three
/// deterministic sub-accounts, the fixed price, the activation flag, and
/// the recorded identities. `address` is where the record itself lives —
/// in the ledger that is account metadata, carried here so every operation
/// can re-derive and compare it.
#[derive(Clone, Copy, Debug, PartialEq)]
pub struct PoolConfigAccount {
    pub address: Address,
    pub pool_config_account_bump: u8,
    pub pool_token_account_bump: u8,
    pub pool_native_account_bump: u8,
    pub token_price: u64,
    pub is_active: bool,
    pub token_mint_address: Address,
    pub pool_token_account: Address,
    pub pool_native_account: Address,
    pub master_authority: Address,
    pub authority: Address,
}

/// An account asserted to be an external human wallet: positive balance
/// and no account data. A program-owned account posing as a wallet fails
/// this check.
pub open spec fn external_wallet(w: WalletAccount) -> bool {
    w.lamports > 0 && w.data_len == 0
}

/// The config record is internally consistent: its own address and both
/// recorded vault addresses are exactly the derivations of the recorded
/// seeds under the stored bumps.
pub open spec fn config_consistent(cfg: PoolConfigAccount, program_id: Seq<u8>) -> bool {
    &&& pda_checks_out(
        cfg.address@,
        config_seeds_spec(cfg.authority@, cfg.token_mint_address@),
        cfg.pool_config_account_bump,
        program_id,
    )
    &&& pda_checks_out(
        cfg.pool_token_account@,
        vault_seeds_spec(pool_token_seed_spec(), cfg.authority@, cfg.token_mint_address@, cfg.address@),
        cfg.pool_token_account_bump,
        program_id,
    )
    &&& pda_checks_out(
        cfg.pool_native_account@,
        vault_seeds_spec(pool_native_seed_spec(), cfg.authority@, cfg.token_mint_address@, cfg.address@),
        cfg.pool_native_account_bump,
        program_id,
    )
}

/// Re-derives the config address and both vault addresses from the record's
/// own fields and compares them with what the record claims. Every
/// operation runs this before trusting any address it was handed.
pub fn validate_config(cfg: &PoolConfigAccount, program_id: &Address) -> (r: bool)
    ensures
        r == config_consistent(*cfg, program_id@),
{
    let cfg_seeds = config_seeds(&cfg.authority, &cfg.token_mint_address);
    if !verify_address(&cfg.address, cfg_seeds, cfg.pool_config_account_bump, program_id) {
        return false;
    }
    let token_seeds = vault_seeds(pool_token_seed(), &cfg.authority, &cfg.token_mint_address, &cfg.address);
    if !verify_address(&cfg.pool_token_account, token_seeds, cfg.pool_token_account_bump, program_id) {
        return false;
    }
    let native_seeds = vault_seeds(pool_native_seed(), &cfg.authority, &cfg.token_mint_address, &cfg.address);
    verify_address(&cfg.pool_native_account, native_seeds, cfg.pool_native_account_bump, program_id)
}

} // verus!
