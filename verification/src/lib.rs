//! A custodial exchange vault, modelled as a verified state machine.
//!
//! The library holds the pool's logic: deterministic sub-account derivation,
//! the authority / master-authority access-control scheme, the fixed-price
//! swap calculation, and the signed-transfer protocol behind deposits, swaps,
//! withdrawals and drains. Account storage, signature verification and the
//! atomic balance mutations belong to the surrounding ledger runtime; the
//! runtime hands each operation a snapshot of the accounts it touches as
//! plain values, and this library decides and computes.

pub mod add_liquid;
pub mod address;
pub mod error;
pub mod init_pool;
pub mod pricing;
pub mod state;
pub mod swap_token;
pub mod transfer;
pub mod update_pool_config;
pub mod withdraw_native_pool;
pub mod withdraw_token_pool;
