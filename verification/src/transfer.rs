//! The signed-transfer protocol: the two fund-moving primitives every
//! operation delegates to, each usable in direct (caller-signed) mode or in
//! vault-signed (derivation-proof) mode.

use vstd::prelude::*;
use crate::address::{Address, DerivationProof, pda_checks_out, seeds_view, verify_address};
use crate::error::CustomError;
use crate::state::{TokenAccount, WalletAccount};

verus! {

/// Who authorises moving a token balance out of its account: either the
/// owning wallet signed this very call, or the owner is a key-less derived
/// account and a seed-tuple proof re-derives it.
pub enum TransferAuthority {
    Direct { wallet: WalletAccount },
    VaultSigned { address: Address, derivation: DerivationProof },
}

/// A lamport source is authorised either by its own signature (direct mode)
/// or by a derivation proof for its address (vault-signed mode).
pub open spec fn native_source_authorized(
    sender: WalletAccount,
    signing_proof: Option<DerivationProof>,
    program_id: Seq<u8>,
) -> bool {
    match signing_proof {
        None => sender.is_signer,
        Some(p) => pda_checks_out(sender.address@, seeds_view(p.seeds), p.bump, program_id),
    }
}

/// The exact outcome of a base-currency transfer: authorisation first, then
/// balance sufficiency, then room in the destination; the first failed
/// check names the error.
pub open spec fn native_transfer_result(
    sender: WalletAccount,
    receiver: WalletAccount,
    amount: u64,
    signing_proof: Option<DerivationProof>,
    program_id: Seq<u8>,
) -> Result<(), CustomError> {
    if !native_source_authorized(sender, signing_proof, program_id) {
        Err(CustomError::InvalidAccount)
    } else if sender.lamports < amount {
        Err(CustomError::InsufficientFunds)
    } else if receiver.lamports + amount > u64::MAX {
        Err(CustomError::Overflow)
    } else {
        Ok(())
    }
}

/// Moves base currency between two accounts. In direct mode the sender must
/// have signed this call; in vault-signed mode the supplied seed tuple and
/// bump must re-derive the sender's address. Balances change exactly by
/// `amount`, or not at all.
pub fn transfer_native_to_account(
    sender: &mut WalletAccount,
    receiver: &mut WalletAccount,
    amount: u64,
    program_id: &Address,
    signing_proof: Option<DerivationProof>,
) -> (r: Result<(), CustomError>)
    ensures
        r == native_transfer_result(*old(sender), *old(receiver), amount, signing_proof, program_id@),
        r is Ok ==> *final(sender) == (WalletAccount {
            lamports: (old(sender).lamports - amount) as u64,
            ..*old(sender)
        }),
        r is Ok ==> *final(receiver) == (WalletAccount {
            lamports: (old(receiver).lamports + amount) as u64,
            ..*old(receiver)
        }),
        r is Err ==> *final(sender) == *old(sender) && *final(receiver) == *old(receiver),
{
    let authorized = match signing_proof {
        None => sender.is_signer,
        Some(p) => verify_address(&sender.address, p.seeds, p.bump, program_id),
    };
    if !authorized {
        return Err(CustomError::InvalidAccount);
    }
    if sender.lamports < amount {
        return Err(CustomError::InsufficientFunds);
    }
    match receiver.lamports.checked_add(amount) {
        None => Err(CustomError::Overflow),
        Some(new_lamports) => {
            sender.lamports = sender.lamports - amount;
            receiver.lamports = new_lamports;
            Ok(())
        },
    }
}

/// A token source is authorised when the claimed authority owns it and that
/// authority either signed the call or is re-derived by the proof.
pub open spec fn token_transfer_auth_result(
    sender: TokenAccount,
    auth: TransferAuthority,
    program_id: Seq<u8>,
) -> Result<(), CustomError> {
    match auth {
        TransferAuthority::Direct { wallet } => {
            if wallet.is_signer && sender.owner@ == wallet.address@ {
                Ok(())
            } else {
                Err(CustomError::InvalidAuthority)
            }
        },
        TransferAuthority::VaultSigned { address, derivation } => {
            if sender.owner@ != address@ {
                Err(CustomError::InvalidAuthority)
            } else if !pda_checks_out(address@, seeds_view(derivation.seeds), derivation.bump, program_id) {
                Err(CustomError::InvalidAccount)
            } else {
                Ok(())
            }
        },
    }
}

/// The exact outcome of a token transfer: authorisation, then matching
/// mints, then balance sufficiency, then room in the destination.
pub open spec fn token_transfer_result(
    sender: TokenAccount,
    receiver: TokenAccount,
    auth: TransferAuthority,
    amount: u64,
    program_id: Seq<u8>,
) -> Result<(), CustomError> {
    if token_transfer_auth_result(sender, auth, program_id) is Err {
        token_transfer_auth_result(sender, auth, program_id)
    } else if sender.mint@ != receiver.mint@ {
        Err(CustomError::InvalidAccount)
    } else if sender.amount < amount {
        Err(CustomError::InsufficientFunds)
    } else if receiver.amount + amount > u64::MAX {
        Err(CustomError::Overflow)
    } else {
        Ok(())
    }
}

/// Moves fungible tokens between two accounts of the same mint, under the
/// owning authority's signature or a vault derivation proof. Balances
/// change exactly by `amount`, or not at all.
pub fn transfer_token_to_account(
    sender: &mut TokenAccount,
    receiver: &mut TokenAccount,
    auth: TransferAuthority,
    amount: u64,
    program_id: &Address,
) -> (r: Result<(), CustomError>)
    ensures
        r == token_transfer_result(*old(sender), *old(receiver), auth, amount, program_id@),
        r is Ok ==> *final(sender) == (TokenAccount {
            amount: (old(sender).amount - amount) as u64,
            ..*old(sender)
        }),
        r is Ok ==> *final(receiver) == (TokenAccount {
            amount: (old(receiver).amount + amount) as u64,
            ..*old(receiver)
        }),
        r is Err ==> *final(sender) == *old(sender) && *final(receiver) == *old(receiver),
{
    match auth {
        TransferAuthority::Direct { wallet } => {
            if !(wallet.is_signer && address_matches(&sender.owner, &wallet.address)) {
                return Err(CustomError::InvalidAuthority);
            }
        },
        TransferAuthority::VaultSigned { address, derivation } => {
            if !address_matches(&sender.owner, &address) {
                return Err(CustomError::InvalidAuthority);
            }
            if !verify_address(&address, derivation.seeds, derivation.bump, program_id) {
                return Err(CustomError::InvalidAccount);
            }
        },
    }
    if !address_matches(&sender.mint, &receiver.mint) {
        return Err(CustomError::InvalidAccount);
    }
    if sender.amount < amount {
        return Err(CustomError::InsufficientFunds);
    }
    match receiver.amount.checked_add(amount) {
        None => Err(CustomError::Overflow),
        Some(new_amount) => {
            sender.amount = sender.amount - amount;
            receiver.amount = new_amount;
            Ok(())
        },
    }
}

/// The exact outcome of the program's own lamport move between accounts it
/// holds: only balance sufficiency and destination room are checked.
pub open spec fn native_pda_transfer_result(
    escrow_vault: WalletAccount,
    receive_account: WalletAccount,
    amount: u64,
) -> Result<(), CustomError> {
    if escrow_vault.lamports < amount {
        Err(CustomError::InsufficientFunds)
    } else if receive_account.lamports + amount > u64::MAX {
        Err(CustomError::Overflow)
    } else {
        Ok(())
    }
}

/// Moves lamports directly between two accounts the program itself holds,
/// with no signature: the ledger runtime permits this mutation only to the
/// owning program, so the caller vouches for ownership.
pub fn transfer_native_pda_to_account(
    escrow_vault: &mut WalletAccount,
    receive_account: &mut WalletAccount,
    amount: u64,
) -> (r: Result<(), CustomError>)
    ensures
        r == native_pda_transfer_result(*old(escrow_vault), *old(receive_account), amount),
        r is Ok ==> *final(escrow_vault) == (WalletAccount {
            lamports: (old(escrow_vault).lamports - amount) as u64,
            ..*old(escrow_vault)
        }),
        r is Ok ==> *final(receive_account) == (WalletAccount {
            lamports: (old(receive_account).lamports + amount) as u64,
            ..*old(receive_account)
        }),
        r is Err ==> *final(escrow_vault) == *old(escrow_vault)
            && *final(receive_account) == *old(receive_account),
{
    if escrow_vault.lamports < amount {
        return Err(CustomError::InsufficientFunds);
    }
    match receive_account.lamports.checked_add(amount) {
        None => Err(CustomError::Overflow),
        Some(new_lamports) => {
            escrow_vault.lamports = escrow_vault.lamports - amount;
            receive_account.lamports = new_lamports;
            Ok(())
        },
    }
}

/// Byte-for-byte address comparison.
fn address_matches(a: &Address, b: &Address) -> (r: bool)
    ensures
        r == (a@ == b@),
{
    a == b
}

} // verus!
