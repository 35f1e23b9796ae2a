//! Toggling the pool's activation flag: the only field mutation permitted
//! after creation, and only by the recorded pool authority.

use vstd::prelude::*;
use crate::address::Address;
use crate::error::CustomError;
use crate::state::{PoolConfigAccount, WalletAccount, config_consistent, validate_config};

verus! {

/// The accounts a config update touches.
pub struct UpdateConfig {
    pub pool_config_account: PoolConfigAccount,
    pub token_mint_address: Address,
    pub authority: WalletAccount,
}

/// The exact decision of `handler_update_config`: address validation first,
/// then the signer's identity against the recorded authority.
pub open spec fn update_config_checks(accs: UpdateConfig, program_id: Seq<u8>) -> Result<(), CustomError> {
    let cfg = accs.pool_config_account;
    if accs.token_mint_address@ != cfg.token_mint_address@ || !config_consistent(cfg, program_id) {
        Err(CustomError::InvalidAccount)
    } else if !(accs.authority.is_signer && accs.authority.data_len == 0) {
        Err(CustomError::InvalidAccount)
    } else if accs.authority.address@ != cfg.authority@ {
        Err(CustomError::InvalidAuthority)
    } else {
        Ok(())
    }
}

/// Sets the pool's activation flag. Succeeds exactly when the config record
/// re-derives to its own address and the recorded authority signed the
/// call; on success only `is_active` changes, on failure nothing does.
pub fn handler_update_config(accs: &mut UpdateConfig, program_id: &Address, is_active: bool) -> (r: Result<
    (),
    CustomError,
>)
    ensures
        r == update_config_checks(*old(accs), program_id@),
        r is Ok ==> *final(accs) == (UpdateConfig {
            pool_config_account: (PoolConfigAccount {
                is_active,
                ..old(accs).pool_config_account
            }),
            ..*old(accs)
        }),
        r is Err ==> *final(accs) == *old(accs),
{
    if !(accs.token_mint_address == accs.pool_config_account.token_mint_address) {
        return Err(CustomError::InvalidAccount);
    }
    if !validate_config(&accs.pool_config_account, program_id) {
        return Err(CustomError::InvalidAccount);
    }
    if !(accs.authority.is_signer && accs.authority.data_len == 0) {
        return Err(CustomError::InvalidAccount);
    }
    if !(accs.authority.address == accs.pool_config_account.authority) {
        return Err(CustomError::InvalidAuthority);
    }
    accs.pool_config_account.is_active = is_active;
    Ok(())
}

} // verus!
