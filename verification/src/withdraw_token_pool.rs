//! Withdrawing tokens from the token vault, partially or in full, under
//! the two-tier authority scheme. Available whether or not the pool is
//! active: this is the administrative recovery path.

use vstd::prelude::*;
use crate::address::{Address, DerivationProof, config_seeds};
use crate::error::CustomError;
use crate::state::{PoolConfigAccount, TokenAccount, WalletAccount, config_consistent, validate_config};
use crate::transfer::{TransferAuthority, transfer_token_to_account};

verus! {

/// The accounts a token withdrawal touches. The destination is the master
/// authority's own token account for the pool's mint.
pub struct WithdrawToken {
    pub pool_token_account: TokenAccount,
    pub pool_config_account: PoolConfigAccount,
    pub token_mint_address: Address,
    pub master_authority_token_account: TokenAccount,
    pub authority: WalletAccount,
    pub master_authority: WalletAccount,
}

/// The supplied accounts re-derive and match the config record, and the
/// destination belongs to the master authority and holds the pool's mint.
pub open spec fn withdraw_token_accounts_valid(accs: WithdrawToken, program_id: Seq<u8>) -> bool {
    let cfg = accs.pool_config_account;
    &&& accs.token_mint_address@ == cfg.token_mint_address@
    &&& config_consistent(cfg, program_id)
    &&& accs.pool_token_account.address@ == cfg.pool_token_account@
    &&& accs.pool_token_account.mint@ == cfg.token_mint_address@
    &&& accs.pool_token_account.owner@ == cfg.address@
    &&& accs.master_authority_token_account.mint@ == cfg.token_mint_address@
    &&& accs.master_authority_token_account.owner@ == accs.master_authority.address@
}

/// The exact decision of `handler_withdraw_token`: address validation,
/// then the master authority's co-signature, then the pool authority's
/// signature, then the vault balance and the destination's room.
pub open spec fn withdraw_token_checks(accs: WithdrawToken, program_id: Seq<u8>, amount: u64) -> Result<
    (),
    CustomError,
> {
    let cfg = accs.pool_config_account;
    if !withdraw_token_accounts_valid(accs, program_id) {
        Err(CustomError::InvalidAccount)
    } else if !(accs.master_authority.is_signer && accs.master_authority.address@ == cfg.master_authority@) {
        Err(CustomError::WithdrawPermission)
    } else if !(accs.authority.is_signer && accs.authority.address@ == cfg.authority@) {
        Err(CustomError::InvalidAuthority)
    } else if accs.pool_token_account.amount < amount {
        Err(CustomError::InsufficientFunds)
    } else if accs.master_authority_token_account.amount + amount > u64::MAX {
        Err(CustomError::Overflow)
    } else {
        Ok(())
    }
}

/// Moves exactly `amount` tokens from the token vault to the master
/// authority's token account, vault-signed by the config record's
/// derivation proof. Requires both the recorded authority and the recorded
/// master authority to have signed; on any failure nothing moves.
pub fn handler_withdraw_token(accs: &mut WithdrawToken, program_id: &Address, amount: u64) -> (r: Result<
    (),
    CustomError,
>)
    ensures
        r == withdraw_token_checks(*old(accs), program_id@, amount),
        r is Ok ==> *final(accs) == (WithdrawToken {
            pool_token_account: (TokenAccount {
                amount: (old(accs).pool_token_account.amount - amount) as u64,
                ..old(accs).pool_token_account
            }),
            master_authority_token_account: (TokenAccount {
                amount: (old(accs).master_authority_token_account.amount + amount) as u64,
                ..old(accs).master_authority_token_account
            }),
            ..*old(accs)
        }),
        r is Err ==> *final(accs) == *old(accs),
{
    if !(accs.token_mint_address == accs.pool_config_account.token_mint_address) {
        return Err(CustomError::InvalidAccount);
    }
    if !validate_config(&accs.pool_config_account, program_id) {
        return Err(CustomError::InvalidAccount);
    }
    if !(accs.pool_token_account.address == accs.pool_config_account.pool_token_account
        && accs.pool_token_account.mint == accs.pool_config_account.token_mint_address
        && accs.pool_token_account.owner == accs.pool_config_account.address
        && accs.master_authority_token_account.mint == accs.pool_config_account.token_mint_address
        && accs.master_authority_token_account.owner == accs.master_authority.address) {
        return Err(CustomError::InvalidAccount);
    }
    if !(accs.master_authority.is_signer
        && accs.master_authority.address == accs.pool_config_account.master_authority) {
        return Err(CustomError::WithdrawPermission);
    }
    if !(accs.authority.is_signer && accs.authority.address == accs.pool_config_account.authority) {
        return Err(CustomError::InvalidAuthority);
    }
    if accs.pool_token_account.amount < amount {
        return Err(CustomError::InsufficientFunds);
    }
    if accs.master_authority_token_account.amount > u64::MAX - amount {
        return Err(CustomError::Overflow);
    }
    let bump = accs.pool_config_account.pool_config_account_bump;
    let auth = TransferAuthority::VaultSigned {
        address: accs.pool_config_account.address,
        derivation: DerivationProof {
            seeds: config_seeds(
                &accs.pool_config_account.authority,
                &accs.pool_config_account.token_mint_address,
            ),
            bump,
        },
    };
    let r1 = transfer_token_to_account(
        &mut accs.pool_token_account,
        &mut accs.master_authority_token_account,
        auth,
        amount,
        program_id,
    );
    proof {
        assert(r1 is Ok);
    }
    Ok(())
}

/// Sweeps the token vault: a withdrawal of its entire current balance.
/// On success the vault is left at exactly zero and the master authority's
/// token account gains exactly the prior balance.
pub fn handler_drain_token(accs: &mut WithdrawToken, program_id: &Address) -> (r: Result<
    (),
    CustomError,
>)
    ensures
        r == withdraw_token_checks(*old(accs), program_id@, old(accs).pool_token_account.amount),
        r is Ok ==> final(accs).pool_token_account.amount == 0,
        r is Ok ==> *final(accs) == (WithdrawToken {
            pool_token_account: (TokenAccount {
                amount: 0,
                ..old(accs).pool_token_account
            }),
            master_authority_token_account: (TokenAccount {
                amount: (old(accs).master_authority_token_account.amount
                    + old(accs).pool_token_account.amount) as u64,
                ..old(accs).master_authority_token_account
            }),
            ..*old(accs)
        }),
        r is Err ==> *final(accs) == *old(accs),
{
    let amount = accs.pool_token_account.amount;
    handler_withdraw_token(accs, program_id, amount)
}

} // verus!
