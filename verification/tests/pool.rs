use swap_pool::add_liquid::{AddLiquid, handler_add_liquid};
use swap_pool::address::{Address, config_seeds, derive_address, verify_address};
use swap_pool::error::CustomError;
use swap_pool::init_pool::{Initialize, InitializedPool, handler_init};
use swap_pool::pricing::{BASE_UNIT, compute_token_out};
use swap_pool::state::{PoolConfigAccount, TokenAccount, WalletAccount};
use swap_pool::swap_token::{SwapToken, handler_swap_token};
use swap_pool::transfer::transfer_native_pda_to_account;
use swap_pool::update_pool_config::{UpdateConfig, handler_update_config};
use swap_pool::withdraw_native_pool::{WithdrawNative, handler_drain_native, handler_withdraw_native};
use swap_pool::withdraw_token_pool::{WithdrawToken, handler_drain_token, handler_withdraw_token};

fn addr(tag: u8) -> Address {
    Address { bytes: [tag; 32] }
}

fn program_id() -> Address {
    addr(7)
}

fn signer_wallet(tag: u8, lamports: u64) -> WalletAccount {
    WalletAccount { address: addr(tag), lamports, data_len: 0, is_signer: true }
}

fn fresh_init() -> Initialize {
    Initialize {
        pool_config_occupied: false,
        pool_token_occupied: false,
        pool_native_occupied: false,
        token_mint_address: addr(3),
        authority: signer_wallet(1, 1_000_000),
        master_authority: WalletAccount {
            address: addr(2),
            lamports: 500_000,
            data_len: 0,
            is_signer: false,
        },
    }
}

fn fresh_pool(token_price: u64) -> InitializedPool {
    handler_init(&fresh_init(), &program_id(), token_price).unwrap()
}

fn swap_accounts(pool: &InitializedPool, vault_tokens: u64, user_lamports: u64) -> SwapToken {
    let cfg = pool.pool_config_account;
    SwapToken {
        pool_token_account: TokenAccount { amount: vault_tokens, ..pool.pool_token_account },
        pool_native_account: pool.pool_native_account,
        pool_config_account: cfg,
        user_token_account: TokenAccount {
            address: addr(40),
            mint: cfg.token_mint_address,
            owner: addr(41),
            amount: 0,
        },
        token_mint_address: cfg.token_mint_address,
        authority: signer_wallet(1, 1_000_000),
        user: WalletAccount {
            address: addr(41),
            lamports: user_lamports,
            data_len: 0,
            is_signer: true,
        },
    }
}

fn withdraw_native_accounts(pool: &InitializedPool, vault_lamports: u64) -> WithdrawNative {
    WithdrawNative {
        pool_native_account: WalletAccount {
            lamports: vault_lamports,
            ..pool.pool_native_account
        },
        pool_config_account: pool.pool_config_account,
        token_mint_address: addr(3),
        authority: signer_wallet(1, 1_000_000),
        master_authority: signer_wallet(2, 500_000),
    }
}

fn withdraw_token_accounts(pool: &InitializedPool, vault_tokens: u64) -> WithdrawToken {
    let cfg = pool.pool_config_account;
    WithdrawToken {
        pool_token_account: TokenAccount { amount: vault_tokens, ..pool.pool_token_account },
        pool_config_account: cfg,
        token_mint_address: addr(3),
        master_authority_token_account: TokenAccount {
            address: addr(50),
            mint: cfg.token_mint_address,
            owner: addr(2),
            amount: 10,
        },
        authority: signer_wallet(1, 1_000_000),
        master_authority: signer_wallet(2, 500_000),
    }
}

#[test]
fn init_creates_active_pool_with_derived_addresses() {
    let accs = fresh_init();
    let pid = program_id();
    let pool = handler_init(&accs, &pid, 100).unwrap();
    let cfg = pool.pool_config_account;
    assert_eq!(cfg.token_price, 100);
    assert!(cfg.is_active);
    assert_eq!(cfg.authority, addr(1));
    assert_eq!(cfg.master_authority, addr(2));
    assert_eq!(cfg.token_mint_address, addr(3));
    assert_eq!(cfg.pool_token_account, pool.pool_token_account.address);
    assert_eq!(cfg.pool_native_account, pool.pool_native_account.address);
    assert_eq!(pool.pool_token_account.owner, cfg.address);
    assert_eq!(pool.pool_token_account.amount, 0);
    assert_eq!(pool.pool_native_account.lamports, 0);
    // the derived addresses are genuinely new identities, not echoes of a seed
    assert_ne!(cfg.address, addr(1));
    assert_ne!(cfg.address, addr(3));
    assert_ne!(cfg.pool_token_account, cfg.pool_native_account);
}

#[test]
fn init_is_deterministic_per_pair() {
    let accs = fresh_init();
    let pid = program_id();
    let first = handler_init(&accs, &pid, 100).unwrap();
    let second = handler_init(&accs, &pid, 999).unwrap();
    assert_eq!(first.pool_config_account.address, second.pool_config_account.address);
    assert_eq!(first.pool_config_account.pool_token_account, second.pool_config_account.pool_token_account);
    let other_mint = Initialize { token_mint_address: addr(4), ..fresh_init() };
    let third = handler_init(&other_mint, &pid, 100).unwrap();
    assert_ne!(first.pool_config_account.address, third.pool_config_account.address);
}

#[test]
fn init_rejects_occupied_config_address() {
    let accs = Initialize { pool_config_occupied: true, ..fresh_init() };
    let r = handler_init(&accs, &program_id(), 100);
    assert_eq!(r.unwrap_err(), CustomError::InvalidAccount);
}

#[test]
fn init_rejects_unsigned_or_unfunded_authority() {
    let mut accs = fresh_init();
    accs.authority.is_signer = false;
    assert_eq!(handler_init(&accs, &program_id(), 100).unwrap_err(), CustomError::InvalidAccount);
    let mut accs = fresh_init();
    accs.authority.lamports = 0;
    assert_eq!(handler_init(&accs, &program_id(), 100).unwrap_err(), CustomError::InvalidAccount);
    let mut accs = fresh_init();
    accs.authority.data_len = 82;
    assert_eq!(handler_init(&accs, &program_id(), 100).unwrap_err(), CustomError::InvalidAccount);
    let mut accs = fresh_init();
    accs.master_authority.data_len = 82;
    assert_eq!(handler_init(&accs, &program_id(), 100).unwrap_err(), CustomError::InvalidAccount);
}

#[test]
fn derive_and_verify_round_trip() {
    let pid = program_id();
    let seeds = config_seeds(&addr(1), &addr(3));
    let (address, bump) = derive_address(&seeds, &pid).unwrap();
    assert!(verify_address(&address, config_seeds(&addr(1), &addr(3)), bump, &pid));
    // a different expected address fails the re-derivation comparison
    assert!(!verify_address(&addr(9), config_seeds(&addr(1), &addr(3)), bump, &pid));
    // different seeds derive a different address
    let (other, _) = derive_address(&config_seeds(&addr(1), &addr(4)), &pid).unwrap();
    assert_ne!(address, other);
}

#[test]
fn update_config_toggles_activation() {
    let pool = fresh_pool(100);
    let mut accs = UpdateConfig {
        pool_config_account: pool.pool_config_account,
        token_mint_address: addr(3),
        authority: signer_wallet(1, 1_000_000),
    };
    handler_update_config(&mut accs, &program_id(), false).unwrap();
    assert!(!accs.pool_config_account.is_active);
    handler_update_config(&mut accs, &program_id(), true).unwrap();
    assert!(accs.pool_config_account.is_active);
    assert_eq!(accs.pool_config_account.token_price, 100);
}

#[test]
fn update_config_rejects_wrong_or_unsigned_authority() {
    let pool = fresh_pool(100);
    let mut accs = UpdateConfig {
        pool_config_account: pool.pool_config_account,
        token_mint_address: addr(3),
        authority: signer_wallet(9, 1_000_000),
    };
    let before = accs.pool_config_account;
    assert_eq!(
        handler_update_config(&mut accs, &program_id(), false).unwrap_err(),
        CustomError::InvalidAuthority
    );
    assert_eq!(accs.pool_config_account, before);
    let mut accs = UpdateConfig {
        pool_config_account: pool.pool_config_account,
        token_mint_address: addr(3),
        authority: WalletAccount { is_signer: false, ..signer_wallet(1, 1_000_000) },
    };
    assert_eq!(
        handler_update_config(&mut accs, &program_id(), false).unwrap_err(),
        CustomError::InvalidAccount
    );
}

#[test]
fn swap_moves_exact_amounts() {
    let pool = fresh_pool(100);
    let mut accs = swap_accounts(&pool, 1_000, 100_000_000);
    handler_swap_token(&mut accs, &program_id(), 50_000_000).unwrap();
    // 100 * 50_000_000 / 1_000_000_000 == 5, exactly
    assert_eq!(accs.user.lamports, 50_000_000);
    assert_eq!(accs.pool_native_account.lamports, 50_000_000);
    assert_eq!(accs.pool_token_account.amount, 995);
    assert_eq!(accs.user_token_account.amount, 5);
}

#[test]
fn swap_drops_fractional_remainder() {
    let pool = fresh_pool(100);
    let mut accs = swap_accounts(&pool, 1_000, 100_000_000);
    handler_swap_token(&mut accs, &program_id(), 50_000_001).unwrap();
    // 100 * 50_000_001 / 1_000_000_000 truncates back down to 5
    assert_eq!(accs.user_token_account.amount, 5);
    assert_eq!(accs.pool_token_account.amount, 995);
    assert_eq!(accs.pool_native_account.lamports, 50_000_001);
}

#[test]
fn swap_rejects_insufficient_user_balance() {
    let pool = fresh_pool(100);
    let mut accs = swap_accounts(&pool, 1_000, 50_000_000);
    let before_native = accs.pool_native_account;
    let before_token = accs.pool_token_account;
    // the swapper's balance must strictly exceed the lamport amount
    assert_eq!(
        handler_swap_token(&mut accs, &program_id(), 50_000_000).unwrap_err(),
        CustomError::InsufficientFunds
    );
    assert_eq!(accs.pool_native_account, before_native);
    assert_eq!(accs.pool_token_account, before_token);
    assert_eq!(accs.user.lamports, 50_000_000);
}

#[test]
fn swap_rejects_deactivated_pool() {
    let pool = fresh_pool(100);
    let mut update = UpdateConfig {
        pool_config_account: pool.pool_config_account,
        token_mint_address: addr(3),
        authority: signer_wallet(1, 1_000_000),
    };
    handler_update_config(&mut update, &program_id(), false).unwrap();
    let deactivated = InitializedPool {
        pool_config_account: update.pool_config_account,
        ..fresh_pool(100)
    };
    let mut accs = swap_accounts(&deactivated, 1_000, 100_000_000);
    assert_eq!(
        handler_swap_token(&mut accs, &program_id(), 50_000_000).unwrap_err(),
        CustomError::DeactivatePool
    );
    handler_update_config(&mut update, &program_id(), true).unwrap();
    let restored = InitializedPool {
        pool_config_account: update.pool_config_account,
        ..fresh_pool(100)
    };
    let mut accs = swap_accounts(&restored, 1_000, 100_000_000);
    handler_swap_token(&mut accs, &program_id(), 50_000_000).unwrap();
    assert_eq!(accs.user_token_account.amount, 5);
}

#[test]
fn swap_rejects_price_overflow() {
    let pool = fresh_pool(u64::MAX);
    let mut accs = swap_accounts(&pool, 1_000, 100_000_000);
    assert_eq!(
        handler_swap_token(&mut accs, &program_id(), 50_000_000).unwrap_err(),
        CustomError::Overflow
    );
}

#[test]
fn swap_rejects_empty_token_vault() {
    let pool = fresh_pool(100);
    let mut accs = swap_accounts(&pool, 4, 100_000_000);
    assert_eq!(
        handler_swap_token(&mut accs, &program_id(), 50_000_000).unwrap_err(),
        CustomError::InsufficientFunds
    );
}

#[test]
fn swap_rejects_foreign_token_vault() {
    let pool = fresh_pool(100);
    let mut accs = swap_accounts(&pool, 1_000, 100_000_000);
    accs.pool_token_account.address = addr(33);
    assert_eq!(
        handler_swap_token(&mut accs, &program_id(), 50_000_000).unwrap_err(),
        CustomError::InvalidAccount
    );
}

#[test]
fn add_liquid_deposits_into_vault() {
    let pool = fresh_pool(100);
    let cfg = pool.pool_config_account;
    let mut accs = AddLiquid {
        pool_token_account: pool.pool_token_account,
        pool_config_account: cfg,
        token_mint_address: addr(3),
        authority: WalletAccount { is_signer: false, ..signer_wallet(1, 1_000_000) },
        depositor_token_account: TokenAccount {
            address: addr(60),
            mint: cfg.token_mint_address,
            owner: addr(61),
            amount: 700,
        },
        depositor: signer_wallet(61, 5_000),
    };
    handler_add_liquid(&mut accs, &program_id(), 300).unwrap();
    assert_eq!(accs.pool_token_account.amount, 300);
    assert_eq!(accs.depositor_token_account.amount, 400);
    assert_eq!(
        handler_add_liquid(&mut accs, &program_id(), 500).unwrap_err(),
        CustomError::InsufficientFunds
    );
    assert_eq!(accs.pool_token_account.amount, 300);
}

#[test]
fn add_liquid_rejects_deactivated_pool() {
    let pool = fresh_pool(100);
    let cfg = PoolConfigAccount { is_active: false, ..pool.pool_config_account };
    let mut accs = AddLiquid {
        pool_token_account: pool.pool_token_account,
        pool_config_account: cfg,
        token_mint_address: addr(3),
        authority: WalletAccount { is_signer: false, ..signer_wallet(1, 1_000_000) },
        depositor_token_account: TokenAccount {
            address: addr(60),
            mint: cfg.token_mint_address,
            owner: addr(61),
            amount: 700,
        },
        depositor: signer_wallet(61, 5_000),
    };
    assert_eq!(
        handler_add_liquid(&mut accs, &program_id(), 300).unwrap_err(),
        CustomError::DeactivatePool
    );
}

#[test]
fn withdraw_native_requires_master_cosignature() {
    let pool = fresh_pool(100);
    // signed by the authority alone: the master authority did not sign
    let mut accs = withdraw_native_accounts(&pool, 10_000);
    accs.master_authority.is_signer = false;
    assert_eq!(
        handler_withdraw_native(&mut accs, &program_id(), 1_000).unwrap_err(),
        CustomError::WithdrawPermission
    );
    assert_eq!(accs.pool_native_account.lamports, 10_000);
    // a wrong master identity fails the same way even when it signed
    let mut accs = withdraw_native_accounts(&pool, 10_000);
    accs.master_authority = signer_wallet(9, 500_000);
    assert_eq!(
        handler_withdraw_native(&mut accs, &program_id(), 1_000).unwrap_err(),
        CustomError::WithdrawPermission
    );
}

#[test]
fn withdraw_native_requires_recorded_authority() {
    let pool = fresh_pool(100);
    // master authority signed, but the pool authority identity is wrong
    let mut accs = withdraw_native_accounts(&pool, 10_000);
    accs.authority = signer_wallet(9, 1_000_000);
    assert_eq!(
        handler_withdraw_native(&mut accs, &program_id(), 1_000).unwrap_err(),
        CustomError::InvalidAuthority
    );
    assert_eq!(accs.pool_native_account.lamports, 10_000);
}

#[test]
fn withdraw_native_moves_exact_amount() {
    let pool = fresh_pool(100);
    let mut accs = withdraw_native_accounts(&pool, 10_000);
    handler_withdraw_native(&mut accs, &program_id(), 1_000).unwrap();
    assert_eq!(accs.pool_native_account.lamports, 9_000);
    assert_eq!(accs.master_authority.lamports, 501_000);
    assert_eq!(
        handler_withdraw_native(&mut accs, &program_id(), 9_001).unwrap_err(),
        CustomError::InsufficientFunds
    );
    assert_eq!(accs.pool_native_account.lamports, 9_000);
}

#[test]
fn drain_native_empties_the_vault() {
    let pool = fresh_pool(100);
    let mut accs = withdraw_native_accounts(&pool, 12_345);
    handler_drain_native(&mut accs, &program_id()).unwrap();
    assert_eq!(accs.pool_native_account.lamports, 0);
    assert_eq!(accs.master_authority.lamports, 512_345);
}

#[test]
fn withdraw_token_requires_both_authorities() {
    let pool = fresh_pool(100);
    let mut accs = withdraw_token_accounts(&pool, 900);
    accs.master_authority.is_signer = false;
    assert_eq!(
        handler_withdraw_token(&mut accs, &program_id(), 100).unwrap_err(),
        CustomError::WithdrawPermission
    );
    let mut accs = withdraw_token_accounts(&pool, 900);
    accs.authority = signer_wallet(9, 1_000_000);
    assert_eq!(
        handler_withdraw_token(&mut accs, &program_id(), 100).unwrap_err(),
        CustomError::InvalidAuthority
    );
    assert_eq!(accs.pool_token_account.amount, 900);
}

#[test]
fn withdraw_token_moves_exact_amount() {
    let pool = fresh_pool(100);
    let mut accs = withdraw_token_accounts(&pool, 900);
    handler_withdraw_token(&mut accs, &program_id(), 250).unwrap();
    assert_eq!(accs.pool_token_account.amount, 650);
    assert_eq!(accs.master_authority_token_account.amount, 260);
    assert_eq!(
        handler_withdraw_token(&mut accs, &program_id(), 651).unwrap_err(),
        CustomError::InsufficientFunds
    );
}

#[test]
fn drain_token_empties_the_vault() {
    let pool = fresh_pool(100);
    let mut accs = withdraw_token_accounts(&pool, 900);
    handler_drain_token(&mut accs, &program_id()).unwrap();
    assert_eq!(accs.pool_token_account.amount, 0);
    assert_eq!(accs.master_authority_token_account.amount, 910);
}

#[test]
fn compute_token_out_exact_values() {
    assert_eq!(compute_token_out(100, 50_000_000).unwrap(), 5);
    assert_eq!(compute_token_out(100, 50_000_001).unwrap(), 5);
    assert_eq!(compute_token_out(1_000_000_000, 3).unwrap(), 3);
    assert_eq!(compute_token_out(0, 50_000_000).unwrap(), 0);
    assert_eq!(compute_token_out(100, BASE_UNIT).unwrap(), 100);
    assert_eq!(compute_token_out(u64::MAX, 2).unwrap_err(), CustomError::Overflow);
}

#[test]
fn swap_rejects_unsigned_user() {
    let pool = fresh_pool(100);
    let mut accs = swap_accounts(&pool, 1_000, 100_000_000);
    accs.user.is_signer = false;
    assert_eq!(
        handler_swap_token(&mut accs, &program_id(), 50_000_000).unwrap_err(),
        CustomError::InvalidAccount
    );
}

#[test]
fn add_liquid_rejects_wrong_mint() {
    let pool = fresh_pool(100);
    let cfg = pool.pool_config_account;
    let mut accs = AddLiquid {
        pool_token_account: pool.pool_token_account,
        pool_config_account: cfg,
        token_mint_address: addr(4),
        authority: WalletAccount { is_signer: false, ..signer_wallet(1, 1_000_000) },
        depositor_token_account: TokenAccount {
            address: addr(60),
            mint: cfg.token_mint_address,
            owner: addr(61),
            amount: 700,
        },
        depositor: signer_wallet(61, 5_000),
    };
    assert_eq!(
        handler_add_liquid(&mut accs, &program_id(), 300).unwrap_err(),
        CustomError::InvalidAccount
    );
}

#[test]
fn full_pool_lifecycle() {
    let pid = program_id();
    let pool = fresh_pool(200);
    let cfg = pool.pool_config_account;

    // deposit 1_000 tokens of liquidity
    let mut deposit = AddLiquid {
        pool_token_account: pool.pool_token_account,
        pool_config_account: cfg,
        token_mint_address: addr(3),
        authority: WalletAccount { is_signer: false, ..signer_wallet(1, 1_000_000) },
        depositor_token_account: TokenAccount {
            address: addr(60),
            mint: cfg.token_mint_address,
            owner: addr(61),
            amount: 1_000,
        },
        depositor: signer_wallet(61, 5_000),
    };
    handler_add_liquid(&mut deposit, &pid, 1_000).unwrap();

    // swap 10_000_000 lamports: 200 * 10_000_000 / 1_000_000_000 == 2 tokens
    let mut swap = SwapToken {
        pool_token_account: deposit.pool_token_account,
        pool_native_account: pool.pool_native_account,
        pool_config_account: cfg,
        user_token_account: TokenAccount {
            address: addr(40),
            mint: cfg.token_mint_address,
            owner: addr(41),
            amount: 0,
        },
        token_mint_address: addr(3),
        authority: signer_wallet(1, 1_000_000),
        user: signer_wallet(41, 20_000_000),
    };
    handler_swap_token(&mut swap, &pid, 10_000_000).unwrap();
    assert_eq!(swap.pool_token_account.amount, 998);
    assert_eq!(swap.user_token_account.amount, 2);
    assert_eq!(swap.pool_native_account.lamports, 10_000_000);
    assert_eq!(swap.user.lamports, 10_000_000);

    // withdraw part of the proceeds, then drain the rest
    let mut withdraw = WithdrawNative {
        pool_native_account: swap.pool_native_account,
        pool_config_account: cfg,
        token_mint_address: addr(3),
        authority: signer_wallet(1, 1_000_000),
        master_authority: signer_wallet(2, 0),
    };
    handler_withdraw_native(&mut withdraw, &pid, 4_000_000).unwrap();
    assert_eq!(withdraw.pool_native_account.lamports, 6_000_000);
    assert_eq!(withdraw.master_authority.lamports, 4_000_000);
    handler_drain_native(&mut withdraw, &pid).unwrap();
    assert_eq!(withdraw.pool_native_account.lamports, 0);
    assert_eq!(withdraw.master_authority.lamports, 10_000_000);

    // sweep the remaining tokens to the master authority's token account
    let mut drain = WithdrawToken {
        pool_token_account: swap.pool_token_account,
        pool_config_account: cfg,
        token_mint_address: addr(3),
        master_authority_token_account: TokenAccount {
            address: addr(50),
            mint: cfg.token_mint_address,
            owner: addr(2),
            amount: 0,
        },
        authority: signer_wallet(1, 1_000_000),
        master_authority: signer_wallet(2, 10_000_000),
    };
    handler_drain_token(&mut drain, &pid).unwrap();
    assert_eq!(drain.pool_token_account.amount, 0);
    assert_eq!(drain.master_authority_token_account.amount, 998);
}

#[test]
fn pda_lamport_move_checks_balance() {
    let mut escrow = WalletAccount { address: addr(70), lamports: 500, data_len: 0, is_signer: false };
    let mut receiver = signer_wallet(71, 100);
    transfer_native_pda_to_account(&mut escrow, &mut receiver, 200).unwrap();
    assert_eq!(escrow.lamports, 300);
    assert_eq!(receiver.lamports, 300);
    assert_eq!(
        transfer_native_pda_to_account(&mut escrow, &mut receiver, 301).unwrap_err(),
        CustomError::InsufficientFunds
    );
    assert_eq!(escrow.lamports, 300);
}
