//! Pool creation: derives the config and vault addresses, rejects occupied
//! or ill-formed accounts, and assembles the durable record atomically.

use vstd::prelude::*;
use crate::address::{
    Address, config_seeds, config_seeds_spec, derive_address, find_pda_of, pool_native_seed,
    pool_native_seed_spec, pool_token_seed, pool_token_seed_spec, vault_seeds, vault_seeds_spec,
};
use crate::error::CustomError;
use crate::state::{PoolConfigAccount, TokenAccount, WalletAccount, config_consistent, external_wallet};

verus! {

/// What the runtime reports about the accounts an initialization touches.
/// The three `occupied` flags answer whether an account already exists at
/// the corresponding derived address.
pub struct Initialize {
    pub pool_config_occupied: bool,
    pub pool_token_occupied: bool,
    pub pool_native_occupied: bool,
    pub token_mint_address: Address,
    pub authority: WalletAccount,
    pub master_authority: WalletAccount,
}

/// Everything a successful initialization creates: the config record and
/// the two empty custodial vaults.
#[derive(Clone, Copy, Debug, PartialEq)]
pub struct InitializedPool {
    pub pool_config_account: PoolConfigAccount,
    pub pool_token_account: TokenAccount,
    pub pool_native_account: WalletAccount,
}

/// The config address and bump an initialization derives for its
/// (authority, token mint) pair: the pool's one identity.
pub open spec fn derived_config_address(accs: Initialize, program_id: Seq<u8>) -> Option<(Seq<u8>, u8)> {
    find_pda_of(config_seeds_spec(accs.authority.address@, accs.token_mint_address@), program_id)
}

/// The exact decision of `handler_init`. Creation is refused — always as
/// `InvalidAccount` — when the initializing signer is not a funded,
/// data-empty wallet, when the master authority carries account data, when
/// any of the three derived addresses is already occupied, or when a
/// derivation finds no bump.
pub open spec fn init_checks(accs: Initialize, program_id: Seq<u8>) -> Result<(), CustomError> {
    if !(accs.authority.is_signer && external_wallet(accs.authority)) {
        Err(CustomError::InvalidAccount)
    } else if accs.master_authority.data_len != 0 {
        Err(CustomError::InvalidAccount)
    } else if accs.pool_config_occupied || accs.pool_token_occupied || accs.pool_native_occupied {
        Err(CustomError::InvalidAccount)
    } else if !(derived_config_address(accs, program_id) matches Some(cfg_ab)
        && find_pda_of(
            vault_seeds_spec(pool_token_seed_spec(), accs.authority.address@, accs.token_mint_address@, cfg_ab.0),
            program_id,
        ) is Some
        && find_pda_of(
            vault_seeds_spec(pool_native_seed_spec(), accs.authority.address@, accs.token_mint_address@, cfg_ab.0),
            program_id,
        ) is Some) {
        Err(CustomError::InvalidAccount)
    } else {
        Ok(())
    }
}

/// Creates a pool: one config record and two vaults, all three addresses
/// freshly derived from the (authority, token mint) pair, the price set,
/// the pool active, both vault balances empty. The native vault's rent
/// funding is the runtime's business and is not counted here.
pub fn handler_init(accs: &Initialize, program_id: &Address, token_price: u64) -> (r: Result<
    InitializedPool,
    CustomError,
>)
    ensures
        r is Ok <==> init_checks(*accs, program_id@) is Ok,
        r matches Err(e) ==> init_checks(*accs, program_id@) == Err::<(), CustomError>(e),
        r matches Ok(p) ==> ({
            let cfg = p.pool_config_account;
            &&& derived_config_address(*accs, program_id@) == Some((cfg.address@, cfg.pool_config_account_bump))
            &&& find_pda_of(
                vault_seeds_spec(pool_token_seed_spec(), cfg.authority@, cfg.token_mint_address@, cfg.address@),
                program_id@,
            ) == Some((cfg.pool_token_account@, cfg.pool_token_account_bump))
            &&& find_pda_of(
                vault_seeds_spec(pool_native_seed_spec(), cfg.authority@, cfg.token_mint_address@, cfg.address@),
                program_id@,
            ) == Some((cfg.pool_native_account@, cfg.pool_native_account_bump))
            &&& config_consistent(cfg, program_id@)
            &&& cfg.token_price == token_price
            &&& cfg.is_active == true
            &&& cfg.token_mint_address@ == accs.token_mint_address@
            &&& cfg.authority@ == accs.authority.address@
            &&& cfg.master_authority@ == accs.master_authority.address@
            &&& p.pool_token_account == (TokenAccount {
                address: p.pool_token_account.address,
                mint: accs.token_mint_address,
                owner: cfg.address,
                amount: 0,
            })
            &&& p.pool_token_account.address@ == cfg.pool_token_account@
            &&& p.pool_native_account == (WalletAccount {
                address: p.pool_native_account.address,
                lamports: 0,
                data_len: 0,
                is_signer: false,
            })
            &&& p.pool_native_account.address@ == cfg.pool_native_account@
        }),
{
    if !(accs.authority.is_signer && accs.authority.lamports > 0 && accs.authority.data_len == 0) {
        return Err(CustomError::InvalidAccount);
    }
    if accs.master_authority.data_len != 0 {
        return Err(CustomError::InvalidAccount);
    }
    if accs.pool_config_occupied || accs.pool_token_occupied || accs.pool_native_occupied {
        return Err(CustomError::InvalidAccount);
    }
    let cfg_seeds = config_seeds(&accs.authority.address, &accs.token_mint_address);
    let (config_address, config_bump) = match derive_address(&cfg_seeds, program_id) {
        Some(ab) => ab,
        None => {
            return Err(CustomError::InvalidAccount);
        },
    };
    let token_seeds = vault_seeds(
        pool_token_seed(),
        &accs.authority.address,
        &accs.token_mint_address,
        &config_address,
    );
    let (token_vault_address, token_vault_bump) = match derive_address(&token_seeds, program_id) {
        Some(ab) => ab,
        None => {
            return Err(CustomError::InvalidAccount);
        },
    };
    let native_seeds = vault_seeds(
        pool_native_seed(),
        &accs.authority.address,
        &accs.token_mint_address,
        &config_address,
    );
    let (native_vault_address, native_vault_bump) = match derive_address(&native_seeds, program_id) {
        Some(ab) => ab,
        None => {
            return Err(CustomError::InvalidAccount);
        },
    };
    let cfg = PoolConfigAccount {
        address: config_address,
        pool_config_account_bump: config_bump,
        pool_token_account_bump: token_vault_bump,
        pool_native_account_bump: native_vault_bump,
        token_price,
        is_active: true,
        token_mint_address: accs.token_mint_address,
        pool_token_account: token_vault_address,
        pool_native_account: native_vault_address,
        master_authority: accs.master_authority.address,
        authority: accs.authority.address,
    };
    Ok(InitializedPool {
        pool_config_account: cfg,
        pool_token_account: TokenAccount {
            address: token_vault_address,
            mint: accs.token_mint_address,
            owner: config_address,
            amount: 0,
        },
        pool_native_account: WalletAccount {
            address: native_vault_address,
            lamports: 0,
            data_len: 0,
            is_signer: false,
        },
    })
}

/// Exactly one pool can ever exist per (authority, token mint) pair: a
/// second initialization for the same pair re-derives the very config
/// address the first one created, and since that address is now occupied
/// the attempt is rejected as `InvalidAccount`.
pub proof fn lemma_reinitialize_rejected(first: Initialize, second: Initialize, program_id: Seq<u8>)
    requires
        init_checks(first, program_id) is Ok,
        second.authority.address@ == first.authority.address@,
        second.token_mint_address@ == first.token_mint_address@,
        // the ledger truthfully reports the derived config address occupied
        second.pool_config_occupied,
    ensures
        derived_config_address(second, program_id) == derived_config_address(first, program_id),
        init_checks(second, program_id) == Err::<(), CustomError>(CustomError::InvalidAccount),
{
}

} // verus!
