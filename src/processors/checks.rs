//! The account checks every handler performs, in the order it performs them.
use crate::errors::PimeError;
use crate::keys::{Derivation, SeedKind, SignerSeeds};
use crate::ledger::{header_of, read_token_amount, read_transfer_data, read_vault_data, token_amount_of, transfer_of, Account, Env};
use crate::states::{TransferData, Transmutable, VaultData};
use pinocchio::pubkey::{pubkey_eq, Pubkey};
use vstd::prelude::*;

verus! {

/// The signer, the token program and the mint; `wrong_program` is the error
/// the handler reports for a token program other than the canonical one.
pub open spec fn spec_preamble(
    env: Env,
    authority: Account,
    mint: Account,
    token_program: Account,
    wrong_program: PimeError,
) -> Result<(), PimeError> {
    if !authority.is_signer {
        Err(PimeError::MissingRequiredSignature)
    } else if token_program.key != env.token_program_id {
        Err(wrong_program)
    } else if mint.owner != token_program.key {
        Err(PimeError::IllegalOwner)
    } else {
        Ok(())
    }
}

/// A vault's existing, writable state record at `key`; gives its header.
pub open spec fn spec_vault_data(env: Env, a: Account, key: Pubkey) -> Result<VaultData, PimeError> {
    if a.key != key {
        Err(PimeError::IncorrectPDA)
    } else if a.lamports == 0 {
        Err(PimeError::UninitializedAccount)
    } else if a.owner != env.program_id {
        Err(PimeError::IllegalOwner)
    } else if !a.is_writable {
        Err(PimeError::Immutable)
    } else {
        match VaultData::image_error(a.data@) {
            Some(e) => Err(e),
            None => Ok(header_of(a.data@)),
        }
    }
}

/// An existing, writable token account at `key`; gives its balance.
pub open spec fn spec_custody(a: Account, key: Pubkey, token_program: Pubkey) -> Result<u64, PimeError> {
    if a.key != key {
        Err(PimeError::IncorrectPDA)
    } else if a.lamports == 0 {
        Err(PimeError::UninitializedAccount)
    } else if a.owner != token_program {
        Err(PimeError::IllegalOwner)
    } else if !a.is_writable {
        Err(PimeError::Immutable)
    } else if a.data@.len() < 165 {
        Err(PimeError::AccountDataTooSmall)
    } else {
        Ok(token_amount_of(a.data@))
    }
}

/// A writable account at `key` that does not exist yet.
pub open spec fn spec_fresh(a: Account, key: Pubkey) -> Result<(), PimeError> {
    if a.key != key {
        Err(PimeError::IncorrectPDA)
    } else if a.lamports != 0 {
        Err(PimeError::AccountAlreadyInitialized)
    } else if !a.is_writable {
        Err(PimeError::Immutable)
    } else {
        Ok(())
    }
}

/// An existing, writable transfer record at `key`; gives the record.
pub open spec fn spec_transfer_data(env: Env, a: Account, key: Pubkey) -> Result<TransferData, PimeError> {
    if a.key != key {
        Err(PimeError::IncorrectPDA)
    } else if a.lamports == 0 {
        Err(PimeError::UninitializedAccount)
    } else if a.owner != env.program_id {
        Err(PimeError::IllegalOwner)
    } else if !a.is_writable {
        Err(PimeError::Immutable)
    } else {
        match TransferData::image_error(a.data@) {
            Some(e) => Err(e),
            None => Ok(transfer_of(a.data@)),
        }
    }
}

/// The seeds a vault-level account signs with.
pub open spec fn spec_vault_signer(
    kind: SeedKind,
    vault_index: u64,
    authority: Pubkey,
    mint: Pubkey,
    token_program: Pubkey,
    bump: u8,
) -> SignerSeeds {
    SignerSeeds {
        derivation: Derivation {
            kind,
            vault_index,
            transfer_index: 0,
            authority,
            destination: authority,
            mint,
            token_program,
        },
        bump,
    }
}

/// The seeds a transfer-level account signs with.
pub open spec fn spec_transfer_signer(
    kind: SeedKind,
    vault_index: u64,
    transfer_index: u64,
    authority: Pubkey,
    destination: Pubkey,
    mint: Pubkey,
    token_program: Pubkey,
    bump: u8,
) -> SignerSeeds {
    SignerSeeds {
        derivation: Derivation {
            kind,
            vault_index,
            transfer_index,
            authority,
            destination,
            mint,
            token_program,
        },
        bump,
    }
}

pub fn preamble(
    env: &Env,
    authority: &Account,
    mint: &Account,
    token_program: &Account,
    wrong_program: PimeError,
) -> (r: Result<(), PimeError>)
    ensures
        r == spec_preamble(*env, *authority, *mint, *token_program, wrong_program),
{
    if !authority.is_signer {
        Err(PimeError::MissingRequiredSignature)
    } else if !pubkey_eq(&token_program.key, &env.token_program_id) {
        Err(wrong_program)
    } else if !pubkey_eq(&mint.owner, &token_program.key) {
        Err(PimeError::IllegalOwner)
    } else {
        Ok(())
    }
}

pub fn check_vault_data(env: &Env, a: &Account, key: &Pubkey) -> (r: Result<VaultData, PimeError>)
    ensures
        r == spec_vault_data(*env, *a, *key),
{
    if !pubkey_eq(&a.key, key) {
        Err(PimeError::IncorrectPDA)
    } else if a.lamports == 0 {
        Err(PimeError::UninitializedAccount)
    } else if !pubkey_eq(&a.owner, &env.program_id) {
        Err(PimeError::IllegalOwner)
    } else if !a.is_writable {
        Err(PimeError::Immutable)
    } else {
        read_vault_data(a.data.as_slice())
    }
}

pub fn check_custody(a: &Account, key: &Pubkey, token_program: &Pubkey) -> (r: Result<u64, PimeError>)
    ensures
        r == spec_custody(*a, *key, *token_program),
{
    if !pubkey_eq(&a.key, key) {
        Err(PimeError::IncorrectPDA)
    } else if a.lamports == 0 {
        Err(PimeError::UninitializedAccount)
    } else if !pubkey_eq(&a.owner, token_program) {
        Err(PimeError::IllegalOwner)
    } else if !a.is_writable {
        Err(PimeError::Immutable)
    } else if a.data.len() < 165 {
        Err(PimeError::AccountDataTooSmall)
    } else {
        Ok(read_token_amount(a.data.as_slice()))
    }
}

pub fn check_fresh(a: &Account, key: &Pubkey) -> (r: Result<(), PimeError>)
    ensures
        r == spec_fresh(*a, *key),
{
    if !pubkey_eq(&a.key, key) {
        Err(PimeError::IncorrectPDA)
    } else if a.lamports != 0 {
        Err(PimeError::AccountAlreadyInitialized)
    } else if !a.is_writable {
        Err(PimeError::Immutable)
    } else {
        Ok(())
    }
}

pub fn check_transfer_data(env: &Env, a: &Account, key: &Pubkey) -> (r: Result<TransferData, PimeError>)
    ensures
        r == spec_transfer_data(*env, *a, *key),
{
    if !pubkey_eq(&a.key, key) {
        Err(PimeError::IncorrectPDA)
    } else if a.lamports == 0 {
        Err(PimeError::UninitializedAccount)
    } else if !pubkey_eq(&a.owner, &env.program_id) {
        Err(PimeError::IllegalOwner)
    } else if !a.is_writable {
        Err(PimeError::Immutable)
    } else {
        read_transfer_data(a.data.as_slice())
    }
}

pub fn vault_signer(
    kind: SeedKind,
    vault_index: u64,
    authority: &Pubkey,
    mint: &Pubkey,
    token_program: &Pubkey,
    bump: u8,
) -> (r: SignerSeeds)
    ensures
        r == spec_vault_signer(kind, vault_index, *authority, *mint, *token_program, bump),
{
    SignerSeeds {
        derivation: Derivation {
            kind,
            vault_index,
            transfer_index: 0,
            authority: *authority,
            destination: *authority,
            mint: *mint,
            token_program: *token_program,
        },
        bump,
    }
}

pub fn transfer_signer(
    kind: SeedKind,
    vault_index: u64,
    transfer_index: u64,
    authority: &Pubkey,
    destination: &Pubkey,
    mint: &Pubkey,
    token_program: &Pubkey,
    bump: u8,
) -> (r: SignerSeeds)
    ensures
        r == spec_transfer_signer(
            kind,
            vault_index,
            transfer_index,
            *authority,
            *destination,
            *mint,
            *token_program,
            bump,
        ),
{
    SignerSeeds {
        derivation: Derivation {
            kind,
            vault_index,
            transfer_index,
            authority: *authority,
            destination: *destination,
            mint: *mint,
            token_program: *token_program,
        },
        bump,
    }
}

/// The derivation of a vault-level key: `vault_index`, then `authority`,
/// `mint` and `token_program` (a vault-level key has no destination; the
/// field holds `authority` and is not part of the seeds).
pub open spec fn spec_vault_derivation(
    kind: SeedKind,
    vault_index: u64,
    authority: Pubkey,
    mint: Pubkey,
    token_program: Pubkey,
) -> Derivation {
    spec_vault_signer(kind, vault_index, authority, mint, token_program, 0).derivation
}

/// The derivation of a transfer-level key.
pub open spec fn spec_transfer_derivation(
    kind: SeedKind,
    vault_index: u64,
    transfer_index: u64,
    authority: Pubkey,
    destination: Pubkey,
    mint: Pubkey,
    token_program: Pubkey,
) -> Derivation {
    spec_transfer_signer(kind, vault_index, transfer_index, authority, destination, mint, token_program, 0).derivation
}

pub fn vault_derivation(
    kind: SeedKind,
    vault_index: u64,
    authority: &Pubkey,
    mint: &Pubkey,
    token_program: &Pubkey,
) -> (r: Derivation)
    ensures
        r == spec_vault_derivation(kind, vault_index, *authority, *mint, *token_program),
{
    vault_signer(kind, vault_index, authority, mint, token_program, 0).derivation
}

pub fn transfer_derivation(
    kind: SeedKind,
    vault_index: u64,
    transfer_index: u64,
    authority: &Pubkey,
    destination: &Pubkey,
    mint: &Pubkey,
    token_program: &Pubkey,
) -> (r: Derivation)
    ensures
        r == spec_transfer_derivation(
            kind,
            vault_index,
            transfer_index,
            *authority,
            *destination,
            *mint,
            *token_program,
        ),
{
    transfer_signer(kind, vault_index, transfer_index, authority, destination, mint, token_program, 0).derivation
}

} // verus!
