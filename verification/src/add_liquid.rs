//! Depositing token liquidity into the pool's token vault.

use vstd::prelude::*;
use crate::address::Address;
use crate::error::CustomError;
use crate::state::{PoolConfigAccount, TokenAccount, WalletAccount, config_consistent, external_wallet, validate_config};
use crate::transfer::{TransferAuthority, transfer_token_to_account};

verus! {

/// The accounts a liquidity deposit touches. `authority` is no signer
/// here: it only names the pool whose vault receives the deposit.
pub struct AddLiquid {
    pub pool_token_account: TokenAccount,
    pub pool_config_account: PoolConfigAccount,
    pub token_mint_address: Address,
    pub authority: WalletAccount,
    pub depositor_token_account: TokenAccount,
    pub depositor: WalletAccount,
}

/// The supplied accounts re-derive and match the config record.
pub open spec fn add_liquid_accounts_valid(accs: AddLiquid, program_id: Seq<u8>) -> bool {
    let cfg = accs.pool_config_account;
    &&& accs.token_mint_address@ == cfg.token_mint_address@
    &&& config_consistent(cfg, program_id)
    &&& accs.pool_token_account.address@ == cfg.pool_token_account@
    &&& accs.pool_token_account.mint@ == cfg.token_mint_address@
    &&& accs.pool_token_account.owner@ == cfg.address@
}

/// The exact decision of `handler_add_liquid`: account validation, the
/// pool authority's identity, the lifecycle gate, then the depositor's
/// wallet, token account and balance.
pub open spec fn add_liquid_checks(accs: AddLiquid, program_id: Seq<u8>, amount: u64) -> Result<
    (),
    CustomError,
> {
    let cfg = accs.pool_config_account;
    if !add_liquid_accounts_valid(accs, program_id) {
        Err(CustomError::InvalidAccount)
    } else if accs.authority.address@ != cfg.authority@ {
        Err(CustomError::InvalidAuthority)
    } else if !cfg.is_active {
        Err(CustomError::DeactivatePool)
    } else if !(accs.depositor.is_signer && external_wallet(accs.depositor)
        && accs.depositor_token_account.mint@ == cfg.token_mint_address@
        && accs.depositor_token_account.owner@ == accs.depositor.address@) {
        Err(CustomError::InvalidAccount)
    } else if accs.depositor_token_account.amount < amount {
        Err(CustomError::InsufficientFunds)
    } else if accs.pool_token_account.amount + amount > u64::MAX {
        Err(CustomError::Overflow)
    } else {
        Ok(())
    }
}

/// Deposits `amount` tokens from the depositor's account into the pool's
/// token vault, signed directly by the depositor. Balances change by
/// exactly `amount`, or not at all.
pub fn handler_add_liquid(accs: &mut AddLiquid, program_id: &Address, amount: u64) -> (r: Result<
    (),
    CustomError,
>)
    ensures
        r == add_liquid_checks(*old(accs), program_id@, amount),
        r is Ok ==> *final(accs) == (AddLiquid {
            depositor_token_account: (TokenAccount {
                amount: (old(accs).depositor_token_account.amount - amount) as u64,
                ..old(accs).depositor_token_account
            }),
            pool_token_account: (TokenAccount {
                amount: (old(accs).pool_token_account.amount + amount) as u64,
                ..old(accs).pool_token_account
            }),
            ..*old(accs)
        }),
        r is Err ==> *final(accs) == *old(accs),
{
    if !(accs.token_mint_address == accs.pool_config_account.token_mint_address) {
        return Err(CustomError::InvalidAccount);
    }
    if !validate_config(&accs.pool_config_account, program_id) {
        return Err(CustomError::InvalidAccount);
    }
    if !(accs.pool_token_account.address == accs.pool_config_account.pool_token_account
        && accs.pool_token_account.mint == accs.pool_config_account.token_mint_address
        && accs.pool_token_account.owner == accs.pool_config_account.address) {
        return Err(CustomError::InvalidAccount);
    }
    if !(accs.authority.address == accs.pool_config_account.authority) {
        return Err(CustomError::InvalidAuthority);
    }
    if !accs.pool_config_account.is_active {
        return Err(CustomError::DeactivatePool);
    }
    if !(accs.depositor.is_signer && accs.depositor.lamports > 0 && accs.depositor.data_len == 0
        && accs.depositor_token_account.mint == accs.pool_config_account.token_mint_address
        && accs.depositor_token_account.owner == accs.depositor.address) {
        return Err(CustomError::InvalidAccount);
    }
    if accs.depositor_token_account.amount < amount {
        return Err(CustomError::InsufficientFunds);
    }
    if accs.pool_token_account.amount > u64::MAX - amount {
        return Err(CustomError::Overflow);
    }
    let auth = TransferAuthority::Direct { wallet: accs.depositor };
    let r1 = transfer_token_to_account(
        &mut accs.depositor_token_account,
        &mut accs.pool_token_account,
        auth,
        amount,
        program_id,
    );
    proof {
        assert(r1 is Ok);
    }
    Ok(())
}

} // verus!
