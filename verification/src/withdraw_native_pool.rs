//! Withdrawing base currency from the native vault, partially or in full,
//! under the two-tier authority scheme. Available whether or not the pool
//! is active: this is the administrative recovery path.

use vstd::prelude::*;
use crate::address::{Address, DerivationProof, pool_native_seed, vault_seeds};
use crate::error::CustomError;
use crate::state::{PoolConfigAccount, WalletAccount, config_consistent, validate_config};
use crate::transfer::transfer_native_to_account;

verus! {

/// The accounts a native withdrawal touches.
pub struct WithdrawNative {
    pub pool_native_account: WalletAccount,
    pub pool_config_account: PoolConfigAccount,
    pub token_mint_address: Address,
    pub authority: WalletAccount,
    pub master_authority: WalletAccount,
}

/// The supplied accounts re-derive and match the config record.
pub open spec fn withdraw_native_accounts_valid(accs: WithdrawNative, program_id: Seq<u8>) -> bool {
    let cfg = accs.pool_config_account;
    &&& accs.token_mint_address@ == cfg.token_mint_address@
    &&& config_consistent(cfg, program_id)
    &&& accs.pool_native_account.address@ == cfg.pool_native_account@
}

/// The exact decision of `handler_withdraw_native`: address validation,
/// then the master authority's co-signature, then the pool authority's
/// signature, then the vault balance and the destination's room.
pub open spec fn withdraw_native_checks(accs: WithdrawNative, program_id: Seq<u8>, lamports: u64) -> Result<
    (),
    CustomError,
> {
    let cfg = accs.pool_config_account;
    if !withdraw_native_accounts_valid(accs, program_id) {
        Err(CustomError::InvalidAccount)
    } else if !(accs.master_authority.is_signer && accs.master_authority.address@ == cfg.master_authority@) {
        Err(CustomError::WithdrawPermission)
    } else if !(accs.authority.is_signer && accs.authority.address@ == cfg.authority@) {
        Err(CustomError::InvalidAuthority)
    } else if accs.pool_native_account.lamports < lamports {
        Err(CustomError::InsufficientFunds)
    } else if accs.master_authority.lamports + lamports > u64::MAX {
        Err(CustomError::Overflow)
    } else {
        Ok(())
    }
}

/// Moves exactly `lamports` from the native vault to the master authority,
/// vault-signed by the native vault's derivation proof. Requires both the
/// recorded authority and the recorded master authority to have signed; on
/// any failure nothing moves.
pub fn handler_withdraw_native(accs: &mut WithdrawNative, program_id: &Address, lamports: u64) -> (r: Result<
    (),
    CustomError,
>)
    ensures
        r == withdraw_native_checks(*old(accs), program_id@, lamports),
        r is Ok ==> *final(accs) == (WithdrawNative {
            pool_native_account: (WalletAccount {
                lamports: (old(accs).pool_native_account.lamports - lamports) as u64,
                ..old(accs).pool_native_account
            }),
            master_authority: (WalletAccount {
                lamports: (old(accs).master_authority.lamports + lamports) as u64,
                ..old(accs).master_authority
            }),
            ..*old(accs)
        }),
        r is Err ==> *final(accs) == *old(accs),
{
    if !(accs.token_mint_address == accs.pool_config_account.token_mint_address) {
        return Err(CustomError::InvalidAccount);
    }
    if !validate_config(&accs.pool_config_account, program_id) {
        return Err(CustomError::InvalidAccount);
    }
    if !(accs.pool_native_account.address == accs.pool_config_account.pool_native_account) {
        return Err(CustomError::InvalidAccount);
    }
    if !(accs.master_authority.is_signer
        && accs.master_authority.address == accs.pool_config_account.master_authority) {
        return Err(CustomError::WithdrawPermission);
    }
    if !(accs.authority.is_signer && accs.authority.address == accs.pool_config_account.authority) {
        return Err(CustomError::InvalidAuthority);
    }
    if accs.pool_native_account.lamports < lamports {
        return Err(CustomError::InsufficientFunds);
    }
    if accs.master_authority.lamports > u64::MAX - lamports {
        return Err(CustomError::Overflow);
    }
    let signing_proof = DerivationProof {
        seeds: vault_seeds(
            pool_native_seed(),
            &accs.pool_config_account.authority,
            &accs.pool_config_account.token_mint_address,
            &accs.pool_config_account.address,
        ),
        bump: accs.pool_config_account.pool_native_account_bump,
    };
    let r1 = transfer_native_to_account(
        &mut accs.pool_native_account,
        &mut accs.master_authority,
        lamports,
        program_id,
        Some(signing_proof),
    );
    proof {
        assert(r1 is Ok);
    }
    Ok(())
}

/// Sweeps the native vault: a withdrawal of its entire current balance.
/// On success the vault is left at exactly zero and the master authority
/// gains exactly the prior balance.
pub fn handler_drain_native(accs: &mut WithdrawNative, program_id: &Address) -> (r: Result<
    (),
    CustomError,
>)
    ensures
        r == withdraw_native_checks(*old(accs), program_id@, old(accs).pool_native_account.lamports),
        r is Ok ==> final(accs).pool_native_account.lamports == 0,
        r is Ok ==> *final(accs) == (WithdrawNative {
            pool_native_account: (WalletAccount {
                lamports: 0,
                ..old(accs).pool_native_account
            }),
            master_authority: (WalletAccount {
                lamports: (old(accs).master_authority.lamports
                    + old(accs).pool_native_account.lamports) as u64,
                ..old(accs).master_authority
            }),
            ..*old(accs)
        }),
        r is Err ==> *final(accs) == *old(accs),
{
    let lamports = accs.pool_native_account.lamports;
    handler_withdraw_native(accs, program_id, lamports)
}

} // verus!
