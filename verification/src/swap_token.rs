//! The fixed-price swap: base currency in, tokens out, as two transfers
//! that either both happen or neither does.

use vstd::prelude::*;
use crate::address::{Address, DerivationProof, config_seeds, config_seeds_spec};
use crate::error::CustomError;
use crate::pricing::{compute_token_out, lemma_token_out_bounds, token_out_spec};
use crate::state::{PoolConfigAccount, TokenAccount, WalletAccount, config_consistent, validate_config};
use crate::transfer::{TransferAuthority, transfer_native_to_account, transfer_token_to_account};
use crate::update_pool_config::{UpdateConfig, update_config_checks};

verus! {

/// The accounts a swap touches.
pub struct SwapToken {
    pub pool_token_account: TokenAccount,
    pub pool_native_account: WalletAccount,
    pub pool_config_account: PoolConfigAccount,
    pub user_token_account: TokenAccount,
    pub token_mint_address: Address,
    pub authority: WalletAccount,
    pub user: WalletAccount,
}

/// The supplied accounts re-derive and match the config record: the mint,
/// both vaults and the record's own address all check out.
pub open spec fn swap_accounts_valid(accs: SwapToken, program_id: Seq<u8>) -> bool {
    let cfg = accs.pool_config_account;
    &&& accs.token_mint_address@ == cfg.token_mint_address@
    &&& config_consistent(cfg, program_id)
    &&& accs.pool_token_account.address@ == cfg.pool_token_account@
    &&& accs.pool_token_account.mint@ == cfg.token_mint_address@
    &&& accs.pool_token_account.owner@ == cfg.address@
    &&& accs.pool_native_account.address@ == cfg.pool_native_account@
}

/// The exact decision of `handler_swap_token`: account validation, the
/// authority's identity, the lifecycle gate, the swapper's funds, then
/// checked arithmetic and vault capacity.
pub open spec fn swap_checks(accs: SwapToken, program_id: Seq<u8>, lamport_amount: u64) -> Result<
    (),
    CustomError,
> {
    let cfg = accs.pool_config_account;
    let token_out = token_out_spec(cfg.token_price, lamport_amount);
    if !swap_accounts_valid(accs, program_id) {
        Err(CustomError::InvalidAccount)
    } else if !(accs.authority.is_signer && accs.authority.data_len == 0) {
        Err(CustomError::InvalidAccount)
    } else if accs.authority.address@ != cfg.authority@ {
        Err(CustomError::InvalidAuthority)
    } else if !cfg.is_active {
        Err(CustomError::DeactivatePool)
    } else if !(accs.user.is_signer && accs.user_token_account.mint@ == cfg.token_mint_address@
        && accs.user_token_account.owner@ == accs.user.address@) {
        Err(CustomError::InvalidAccount)
    } else if accs.user.lamports <= lamport_amount {
        Err(CustomError::InsufficientFunds)
    } else if cfg.token_price * lamport_amount > u64::MAX {
        Err(CustomError::Overflow)
    } else if accs.pool_token_account.amount < token_out {
        Err(CustomError::InsufficientFunds)
    } else if accs.pool_native_account.lamports + lamport_amount > u64::MAX
        || accs.user_token_account.amount + token_out > u64::MAX {
        Err(CustomError::Overflow)
    } else {
        Ok(())
    }
}

/// Swaps `lamport_amount` of base currency for tokens at the recorded
/// fixed price. On success exactly `lamport_amount` moves from the swapper
/// into the native vault and exactly the truncated quotient moves from the
/// token vault into the swapper's token account — the second transfer is
/// vault-signed by the config record's derivation proof. On any failure
/// nothing moves.
pub fn handler_swap_token(accs: &mut SwapToken, program_id: &Address, lamport_amount: u64) -> (r: Result<
    (),
    CustomError,
>)
    ensures
        r == swap_checks(*old(accs), program_id@, lamport_amount),
        r is Ok ==> *final(accs) == (SwapToken {
            user: (WalletAccount {
                lamports: (old(accs).user.lamports - lamport_amount) as u64,
                ..old(accs).user
            }),
            pool_native_account: (WalletAccount {
                lamports: (old(accs).pool_native_account.lamports + lamport_amount) as u64,
                ..old(accs).pool_native_account
            }),
            pool_token_account: (TokenAccount {
                amount: (old(accs).pool_token_account.amount - token_out_spec(
                    old(accs).pool_config_account.token_price,
                    lamport_amount,
                )) as u64,
                ..old(accs).pool_token_account
            }),
            user_token_account: (TokenAccount {
                amount: (old(accs).user_token_account.amount + token_out_spec(
                    old(accs).pool_config_account.token_price,
                    lamport_amount,
                )) as u64,
                ..old(accs).user_token_account
            }),
            ..*old(accs)
        }),
        r is Err ==> *final(accs) == *old(accs),
{
    if !(accs.token_mint_address == accs.pool_config_account.token_mint_address) {
        return Err(CustomError::InvalidAccount);
    }
    if !validate_config(&accs.pool_config_account, program_id) {
        return Err(CustomError::InvalidAccount);
    }
    if !(accs.pool_token_account.address == accs.pool_config_account.pool_token_account
        && accs.pool_token_account.mint == accs.pool_config_account.token_mint_address
        && accs.pool_token_account.owner == accs.pool_config_account.address
        && accs.pool_native_account.address == accs.pool_config_account.pool_native_account) {
        return Err(CustomError::InvalidAccount);
    }
    if !(accs.authority.is_signer && accs.authority.data_len == 0) {
        return Err(CustomError::InvalidAccount);
    }
    if !(accs.authority.address == accs.pool_config_account.authority) {
        return Err(CustomError::InvalidAuthority);
    }
    if !accs.pool_config_account.is_active {
        return Err(CustomError::DeactivatePool);
    }
    if !(accs.user.is_signer && accs.user_token_account.mint == accs.pool_config_account.token_mint_address
        && accs.user_token_account.owner == accs.user.address) {
        return Err(CustomError::InvalidAccount);
    }
    if accs.user.lamports <= lamport_amount {
        return Err(CustomError::InsufficientFunds);
    }
    let token_amount = match compute_token_out(accs.pool_config_account.token_price, lamport_amount) {
        Ok(t) => t,
        Err(e) => {
            return Err(e);
        },
    };
    proof {
        lemma_token_out_bounds(accs.pool_config_account.token_price, lamport_amount);
    }
    if accs.pool_token_account.amount < token_amount {
        return Err(CustomError::InsufficientFunds);
    }
    if accs.pool_native_account.lamports > u64::MAX - lamport_amount
        || accs.user_token_account.amount > u64::MAX - token_amount {
        return Err(CustomError::Overflow);
    }
    let r1 = transfer_native_to_account(
        &mut accs.user,
        &mut accs.pool_native_account,
        lamport_amount,
        program_id,
        None,
    );
    proof {
        assert(r1 is Ok);
    }
    let bump = accs.pool_config_account.pool_config_account_bump;
    let auth = TransferAuthority::VaultSigned {
        address: accs.pool_config_account.address,
        derivation: DerivationProof {
            seeds: config_seeds(
                &accs.pool_config_account.authority,
                &accs.pool_config_account.token_mint_address,
            ),
            bump,
        },
    };
    let r2 = transfer_token_to_account(
        &mut accs.pool_token_account,
        &mut accs.user_token_account,
        auth,
        token_amount,
        program_id,
    );
    proof {
        assert(r2 is Ok);
    }
    Ok(())
}

/// Deactivating a pool blocks swapping, and reactivating it restores
/// eligibility: after `update_config` records `is_active = false`, a swap
/// against the updated record fails with `DeactivatePool` whenever its
/// accounts and authority otherwise check out; after `is_active = true`,
/// no swap outcome is ever `DeactivatePool`.
pub proof fn lemma_update_config_gates_swap(
    update: UpdateConfig,
    accs: SwapToken,
    program_id: Seq<u8>,
    is_active: bool,
    lamport_amount: u64,
)
    requires
        update_config_checks(update, program_id) is Ok,
        accs.pool_config_account == (PoolConfigAccount {
            is_active,
            ..update.pool_config_account
        }),
    ensures
        !is_active && swap_accounts_valid(accs, program_id) && accs.authority.is_signer
            && accs.authority.data_len == 0
            && accs.authority.address@ == accs.pool_config_account.authority@
            ==> swap_checks(accs, program_id, lamport_amount) == Err::<(), CustomError>(
                CustomError::DeactivatePool,
            ),
        is_active ==> swap_checks(accs, program_id, lamport_amount) != Err::<(), CustomError>(
            CustomError::DeactivatePool,
        ),
{
}

} // verus!
