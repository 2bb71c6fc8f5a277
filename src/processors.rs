//! The instruction handlers, and the entry points that decode an
//! instruction, derive the keys it names and run its handler.
pub mod checks;
pub mod transfer;
pub mod vault;

use crate::errors::PimeError;
use crate::instructions::{BookTransferInstructionData, CloseVaultInstructionData, CreateVaultInstructionData, DepositToVaultInstructionData, ExecuteTransferInstructionData, PimeInstruction, UnbookTransferInstructionData, WithdrawFromVaultInstructionData};
use crate::keys::{Derivation, SeedKind};
use crate::processors::checks::{spec_transfer_derivation, spec_vault_derivation, transfer_derivation, vault_derivation};
use crate::ledger::{Account, Action, DerivedKey, Env};
use crate::processors::transfer::{book_transfer, execute_transfer, spec_book_transfer, spec_execute_transfer, spec_unbook_transfer, unbook_transfer};
use crate::processors::vault::{close_vault, create_vault, deposit_to_vault, spec_close_vault, spec_create_vault, spec_deposit_to_vault, spec_withdraw_from_vault, withdraw_from_vault};
use pinocchio::pubkey::{pubkey_eq, Pubkey};
use vstd::prelude::*;
use vstd::slice::slice_subrange;

verus! {

/// A handler's result, over views.
pub open spec fn result_view(r: Result<Vec<Action>, PimeError>) -> Result<Seq<Action>, PimeError> {
    match r {
        Ok(v) => Ok(v@),
        Err(e) => Err(e),
    }
}

/// Derives a key; a derivation that finds no bump is reported as an
/// incorrect key.
pub fn derive_key(d: &Derivation, program_id: &Pubkey) -> (r: Result<DerivedKey, PimeError>)
    ensures
        r matches Err(e) ==> e == PimeError::IncorrectPDA,
{
    match d.find(program_id) {
        Some((key, bump)) => Ok(DerivedKey { key, bump }),
        None => Err(PimeError::IncorrectPDA),
    }
}

/// What process_create_vault derives, in order: the vault's state record and custody.
pub fn create_vault_derivations(accounts: &Vec<Account>, args: &CreateVaultInstructionData) -> (r: (Derivation, Derivation))
    requires
        accounts@.len() >= 5,
    ensures
        r == (spec_vault_derivation(SeedKind::VaultData, (*args).index, accounts@[0].key, accounts@[3].key, accounts@[4].key), spec_vault_derivation(SeedKind::Vault, (*args).index, accounts@[0].key, accounts@[3].key, accounts@[4].key)),
{
    (vault_derivation(SeedKind::VaultData, args.index, &accounts[0].key, &accounts[3].key, &accounts[4].key),
        vault_derivation(SeedKind::Vault, args.index, &accounts[0].key, &accounts[3].key, &accounts[4].key))
}

/// The outcome of process_create_vault on `data`: a malformed payload or too few
/// accounts is rejected before any key is derived; otherwise either a key
/// derivation failed or the handler ran on the decoded payload.
pub open spec fn create_vault_outcome(env: Env, accounts: Seq<Account>, data: Seq<u8>, r: Result<Seq<Action>, PimeError>) -> bool {
    if data.len() < 49 || data[32] > 1 {
        r == Err::<Seq<Action>, PimeError>(PimeError::InvalidInstructionData)
    } else if accounts.len() < 5 {
        r == Err::<Seq<Action>, PimeError>(PimeError::NotEnoughAccountKeys)
    } else {
        r == Err::<Seq<Action>, PimeError>(PimeError::IncorrectPDA) || exists|args: CreateVaultInstructionData, vd: DerivedKey, vk: DerivedKey|
            args.payload() == data.subrange(0, 49) && spec_create_vault(env, accounts, args, vd, vk) == r
    }
}

/// Create a vault. Payload: see [`CreateVaultInstructionData`].
pub fn process_create_vault(env: &Env, accounts: &Vec<Account>, data: &[u8]) -> (r: Result<Vec<Action>, PimeError>)
    ensures
        create_vault_outcome(*env, accounts@, data@, result_view(r)),
{
    let args = CreateVaultInstructionData::unpack(data)?;
    if accounts.len() < 5 {
        return Err(PimeError::NotEnoughAccountKeys);
    }
    let (d0, d1) = create_vault_derivations(accounts, &args);
    let vd = derive_key(&d0, &env.program_id)?;
    let vk = derive_key(&d1, &env.program_id)?;
    let r = create_vault(env, accounts, &args, &vd, &vk);
    proof {
        assert(spec_create_vault(*env, accounts@, args, vd, vk) == result_view(r));
    }
    r
}

/// What process_deposit_to_vault derives, in order: the vault's custody.
pub fn deposit_to_vault_derivation(accounts: &Vec<Account>, args: &DepositToVaultInstructionData) -> (r: Derivation)
    requires
        accounts@.len() >= 5,
    ensures
        r == spec_vault_derivation(SeedKind::Vault, (*args).index, (*args).vault_owner, accounts@[3].key, accounts@[4].key),
{
    vault_derivation(SeedKind::Vault, args.index, &args.vault_owner, &accounts[3].key, &accounts[4].key)
}

/// The outcome of process_deposit_to_vault on `data`: a malformed payload or too few
/// accounts is rejected before any key is derived; otherwise either a key
/// derivation failed or the handler ran on the decoded payload.
pub open spec fn deposit_to_vault_outcome(env: Env, accounts: Seq<Account>, data: Seq<u8>, r: Result<Seq<Action>, PimeError>) -> bool {
    if data.len() < 48 {
        r == Err::<Seq<Action>, PimeError>(PimeError::InvalidInstructionData)
    } else if accounts.len() < 5 {
        r == Err::<Seq<Action>, PimeError>(PimeError::NotEnoughAccountKeys)
    } else {
        r == Err::<Seq<Action>, PimeError>(PimeError::IncorrectPDA) || exists|args: DepositToVaultInstructionData, vk: DerivedKey|
            args.payload() == data.subrange(0, 48) && spec_deposit_to_vault(env, accounts, args, vk) == r
    }
}

/// Deposit into a vault. Payload: see [`DepositToVaultInstructionData`].
pub fn process_deposit_to_vault(env: &Env, accounts: &Vec<Account>, data: &[u8]) -> (r: Result<Vec<Action>, PimeError>)
    ensures
        deposit_to_vault_outcome(*env, accounts@, data@, result_view(r)),
{
    let args = DepositToVaultInstructionData::unpack(data)?;
    if accounts.len() < 5 {
        return Err(PimeError::NotEnoughAccountKeys);
    }
    let d = deposit_to_vault_derivation(accounts, &args);
    let vk = derive_key(&d, &env.program_id)?;
    let r = deposit_to_vault(env, accounts, &args, &vk);
    proof {
        assert(spec_deposit_to_vault(*env, accounts@, args, vk) == result_view(r));
    }
    r
}

/// What process_withdraw_from_vault derives, in order: the vault's state record and custody.
pub fn withdraw_from_vault_derivations(accounts: &Vec<Account>, args: &WithdrawFromVaultInstructionData) -> (r: (Derivation, Derivation))
    requires
        accounts@.len() >= 6,
    ensures
        r == (spec_vault_derivation(SeedKind::VaultData, (*args).vault_index, accounts@[0].key, accounts@[4].key, accounts@[5].key), spec_vault_derivation(SeedKind::Vault, (*args).vault_index, accounts@[0].key, accounts@[4].key, accounts@[5].key)),
{
    (vault_derivation(SeedKind::VaultData, args.vault_index, &accounts[0].key, &accounts[4].key, &accounts[5].key),
        vault_derivation(SeedKind::Vault, args.vault_index, &accounts[0].key, &accounts[4].key, &accounts[5].key))
}

/// The outcome of process_withdraw_from_vault on `data`: a malformed payload or too few
/// accounts is rejected before any key is derived; otherwise either a key
/// derivation failed or the handler ran on the decoded payload.
pub open spec fn withdraw_from_vault_outcome(env: Env, accounts: Seq<Account>, data: Seq<u8>, r: Result<Seq<Action>, PimeError>) -> bool {
    if data.len() < 16 {
        r == Err::<Seq<Action>, PimeError>(PimeError::InvalidInstructionData)
    } else if accounts.len() < 6 {
        r == Err::<Seq<Action>, PimeError>(PimeError::NotEnoughAccountKeys)
    } else {
        r == Err::<Seq<Action>, PimeError>(PimeError::IncorrectPDA) || exists|args: WithdrawFromVaultInstructionData, vd: DerivedKey, vk: DerivedKey|
            args.payload() == data.subrange(0, 16) && spec_withdraw_from_vault(env, accounts, args, vd, vk) == r
    }
}

/// Withdraw from a vault. Payload: see [`WithdrawFromVaultInstructionData`].
pub fn process_withdraw_from_vault(env: &Env, accounts: &Vec<Account>, data: &[u8]) -> (r: Result<Vec<Action>, PimeError>)
    ensures
        withdraw_from_vault_outcome(*env, accounts@, data@, result_view(r)),
{
    let args = WithdrawFromVaultInstructionData::unpack(data)?;
    if accounts.len() < 6 {
        return Err(PimeError::NotEnoughAccountKeys);
    }
    let (d0, d1) = withdraw_from_vault_derivations(accounts, &args);
    let vd = derive_key(&d0, &env.program_id)?;
    let vk = derive_key(&d1, &env.program_id)?;
    let r = withdraw_from_vault(env, accounts, &args, &vd, &vk);
    proof {
        assert(spec_withdraw_from_vault(*env, accounts@, args, vd, vk) == result_view(r));
    }
    r
}

/// What process_close_vault derives, in order: the vault's state record and custody.
pub fn close_vault_derivations(accounts: &Vec<Account>, args: &CloseVaultInstructionData) -> (r: (Derivation, Derivation))
    requires
        accounts@.len() >= 5,
    ensures
        r == (spec_vault_derivation(SeedKind::VaultData, (*args).vault_index, accounts@[0].key, accounts@[3].key, accounts@[4].key), spec_vault_derivation(SeedKind::Vault, (*args).vault_index, accounts@[0].key, accounts@[3].key, accounts@[4].key)),
{
    (vault_derivation(SeedKind::VaultData, args.vault_index, &accounts[0].key, &accounts[3].key, &accounts[4].key),
        vault_derivation(SeedKind::Vault, args.vault_index, &accounts[0].key, &accounts[3].key, &accounts[4].key))
}

/// The outcome of process_close_vault on `data`: a malformed payload or too few
/// accounts is rejected before any key is derived; otherwise either a key
/// derivation failed or the handler ran on the decoded payload.
pub open spec fn close_vault_outcome(env: Env, accounts: Seq<Account>, data: Seq<u8>, r: Result<Seq<Action>, PimeError>) -> bool {
    if data.len() < 8 {
        r == Err::<Seq<Action>, PimeError>(PimeError::InvalidInstructionData)
    } else if accounts.len() < 5 {
        r == Err::<Seq<Action>, PimeError>(PimeError::NotEnoughAccountKeys)
    } else {
        r == Err::<Seq<Action>, PimeError>(PimeError::IncorrectPDA) || exists|args: CloseVaultInstructionData, vd: DerivedKey, vk: DerivedKey|
            args.payload() == data.subrange(0, 8) && spec_close_vault(env, accounts, args, vd, vk) == r
    }
}

/// Close a vault. Payload: see [`CloseVaultInstructionData`].
pub fn process_close_vault(env: &Env, accounts: &Vec<Account>, data: &[u8]) -> (r: Result<Vec<Action>, PimeError>)
    ensures
        close_vault_outcome(*env, accounts@, data@, result_view(r)),
{
    let args = CloseVaultInstructionData::unpack(data)?;
    if accounts.len() < 5 {
        return Err(PimeError::NotEnoughAccountKeys);
    }
    let (d0, d1) = close_vault_derivations(accounts, &args);
    let vd = derive_key(&d0, &env.program_id)?;
    let vk = derive_key(&d1, &env.program_id)?;
    let r = close_vault(env, accounts, &args, &vd, &vk);
    proof {
        assert(spec_close_vault(*env, accounts@, args, vd, vk) == result_view(r));
    }
    r
}

/// What process_book_transfer derives, in order: the vault's state record and custody, the transfer record and its deposit custody.
pub fn book_transfer_derivations(accounts: &Vec<Account>, args: &BookTransferInstructionData) -> (r: (Derivation, Derivation, Derivation, Derivation))
    requires
        accounts@.len() >= 7,
    ensures
        r == (spec_vault_derivation(SeedKind::VaultData, (*args).vault_index, accounts@[0].key, accounts@[5].key, accounts@[6].key), spec_vault_derivation(SeedKind::Vault, (*args).vault_index, accounts@[0].key, accounts@[5].key, accounts@[6].key), spec_transfer_derivation(SeedKind::Transfer, (*args).vault_index, (*args).transfer_index, accounts@[0].key, (*args).destination, accounts@[5].key, accounts@[6].key), spec_transfer_derivation(SeedKind::Deposit, (*args).vault_index, (*args).transfer_index, accounts@[0].key, (*args).destination, accounts@[5].key, accounts@[6].key)),
{
    (vault_derivation(SeedKind::VaultData, args.vault_index, &accounts[0].key, &accounts[5].key, &accounts[6].key),
        vault_derivation(SeedKind::Vault, args.vault_index, &accounts[0].key, &accounts[5].key, &accounts[6].key),
        transfer_derivation(SeedKind::Transfer, args.vault_index, args.transfer_index, &accounts[0].key, &args.destination, &accounts[5].key, &accounts[6].key),
        transfer_derivation(SeedKind::Deposit, args.vault_index, args.transfer_index, &accounts[0].key, &args.destination, &accounts[5].key, &accounts[6].key))
}

/// The outcome of process_book_transfer on `data`: a malformed payload or too few
/// accounts is rejected before any key is derived; otherwise either a key
/// derivation failed or the handler ran on the decoded payload.
pub open spec fn book_transfer_outcome(env: Env, accounts: Seq<Account>, data: Seq<u8>, r: Result<Seq<Action>, PimeError>) -> bool {
    if data.len() < 72 {
        r == Err::<Seq<Action>, PimeError>(PimeError::InvalidInstructionData)
    } else if accounts.len() < 7 {
        r == Err::<Seq<Action>, PimeError>(PimeError::NotEnoughAccountKeys)
    } else {
        r == Err::<Seq<Action>, PimeError>(PimeError::IncorrectPDA) || exists|args: BookTransferInstructionData, vd: DerivedKey, vk: DerivedKey, tk: DerivedKey, dk: DerivedKey|
            args.payload() == data.subrange(0, 72) && spec_book_transfer(env, accounts, args, vd, vk, tk, dk) == r
    }
}

/// Book a transfer. Payload: see [`BookTransferInstructionData`].
pub fn process_book_transfer(env: &Env, accounts: &Vec<Account>, data: &[u8]) -> (r: Result<Vec<Action>, PimeError>)
    ensures
        book_transfer_outcome(*env, accounts@, data@, result_view(r)),
{
    let args = BookTransferInstructionData::unpack(data)?;
    if accounts.len() < 7 {
        return Err(PimeError::NotEnoughAccountKeys);
    }
    let (d0, d1, d2, d3) = book_transfer_derivations(accounts, &args);
    let vd = derive_key(&d0, &env.program_id)?;
    let vk = derive_key(&d1, &env.program_id)?;
    let tk = derive_key(&d2, &env.program_id)?;
    let dk = derive_key(&d3, &env.program_id)?;
    let r = book_transfer(env, accounts, &args, &vd, &vk, &tk, &dk);
    proof {
        assert(spec_book_transfer(*env, accounts@, args, vd, vk, tk, dk) == result_view(r));
    }
    r
}

/// What process_transfer derives, in order: the vault's state record and custody, the transfer record and its deposit custody.
pub fn execute_transfer_derivations(accounts: &Vec<Account>, args: &ExecuteTransferInstructionData) -> (r: (Derivation, Derivation, Derivation, Derivation))
    requires
        accounts@.len() >= 8,
    ensures
        r == (spec_vault_derivation(SeedKind::VaultData, (*args).vault_index, accounts@[0].key, accounts@[6].key, accounts@[7].key), spec_vault_derivation(SeedKind::Vault, (*args).vault_index, accounts@[0].key, accounts@[6].key, accounts@[7].key), spec_transfer_derivation(SeedKind::Transfer, (*args).vault_index, (*args).transfer_index, accounts@[0].key, accounts@[5].key, accounts@[6].key, accounts@[7].key), spec_transfer_derivation(SeedKind::Deposit, (*args).vault_index, (*args).transfer_index, accounts@[0].key, accounts@[5].key, accounts@[6].key, accounts@[7].key)),
{
    (vault_derivation(SeedKind::VaultData, args.vault_index, &accounts[0].key, &accounts[6].key, &accounts[7].key),
        vault_derivation(SeedKind::Vault, args.vault_index, &accounts[0].key, &accounts[6].key, &accounts[7].key),
        transfer_derivation(SeedKind::Transfer, args.vault_index, args.transfer_index, &accounts[0].key, &accounts[5].key, &accounts[6].key, &accounts[7].key),
        transfer_derivation(SeedKind::Deposit, args.vault_index, args.transfer_index, &accounts[0].key, &accounts[5].key, &accounts[6].key, &accounts[7].key))
}

/// The outcome of process_transfer on `data`: a malformed payload or too few
/// accounts is rejected before any key is derived; otherwise either a key
/// derivation failed or the handler ran on the decoded payload.
pub open spec fn execute_transfer_outcome(env: Env, accounts: Seq<Account>, data: Seq<u8>, r: Result<Seq<Action>, PimeError>) -> bool {
    if data.len() < 16 {
        r == Err::<Seq<Action>, PimeError>(PimeError::InvalidInstructionData)
    } else if accounts.len() < 8 {
        r == Err::<Seq<Action>, PimeError>(PimeError::NotEnoughAccountKeys)
    } else {
        r == Err::<Seq<Action>, PimeError>(PimeError::IncorrectPDA) || exists|args: ExecuteTransferInstructionData, vd: DerivedKey, vk: DerivedKey, tk: DerivedKey, dk: DerivedKey|
            args.payload() == data.subrange(0, 16) && spec_execute_transfer(env, accounts, args, vd, vk, tk, dk) == r
    }
}

/// Execute a booked transfer. Payload: see [`ExecuteTransferInstructionData`].
pub fn process_transfer(env: &Env, accounts: &Vec<Account>, data: &[u8]) -> (r: Result<Vec<Action>, PimeError>)
    ensures
        execute_transfer_outcome(*env, accounts@, data@, result_view(r)),
{
    let args = ExecuteTransferInstructionData::unpack(data)?;
    if accounts.len() < 8 {
        return Err(PimeError::NotEnoughAccountKeys);
    }
    let (d0, d1, d2, d3) = execute_transfer_derivations(accounts, &args);
    let vd = derive_key(&d0, &env.program_id)?;
    let vk = derive_key(&d1, &env.program_id)?;
    let tk = derive_key(&d2, &env.program_id)?;
    let dk = derive_key(&d3, &env.program_id)?;
    let r = execute_transfer(env, accounts, &args, &vd, &vk, &tk, &dk);
    proof {
        assert(spec_execute_transfer(*env, accounts@, args, vd, vk, tk, dk) == result_view(r));
    }
    r
}

/// What process_unbook_transfer derives, in order: the vault's state record and custody, the transfer record and its deposit custody.
pub fn unbook_transfer_derivations(accounts: &Vec<Account>, args: &UnbookTransferInstructionData) -> (r: (Derivation, Derivation, Derivation, Derivation))
    requires
        accounts@.len() >= 7,
    ensures
        r == (spec_vault_derivation(SeedKind::VaultData, (*args).vault_index, accounts@[0].key, accounts@[5].key, accounts@[6].key), spec_vault_derivation(SeedKind::Vault, (*args).vault_index, accounts@[0].key, accounts@[5].key, accounts@[6].key), spec_transfer_derivation(SeedKind::Transfer, (*args).vault_index, (*args).transfer_index, accounts@[0].key, (*args).destination, accounts@[5].key, accounts@[6].key), spec_transfer_derivation(SeedKind::Deposit, (*args).vault_index, (*args).transfer_index, accounts@[0].key, (*args).destination, accounts@[5].key, accounts@[6].key)),
{
    (vault_derivation(SeedKind::VaultData, args.vault_index, &accounts[0].key, &accounts[5].key, &accounts[6].key),
        vault_derivation(SeedKind::Vault, args.vault_index, &accounts[0].key, &accounts[5].key, &accounts[6].key),
        transfer_derivation(SeedKind::Transfer, args.vault_index, args.transfer_index, &accounts[0].key, &args.destination, &accounts[5].key, &accounts[6].key),
        transfer_derivation(SeedKind::Deposit, args.vault_index, args.transfer_index, &accounts[0].key, &args.destination, &accounts[5].key, &accounts[6].key))
}

/// The outcome of process_unbook_transfer on `data`: a malformed payload or too few
/// accounts is rejected before any key is derived; otherwise either a key
/// derivation failed or the handler ran on the decoded payload.
pub open spec fn unbook_transfer_outcome(env: Env, accounts: Seq<Account>, data: Seq<u8>, r: Result<Seq<Action>, PimeError>) -> bool {
    if data.len() < 48 {
        r == Err::<Seq<Action>, PimeError>(PimeError::InvalidInstructionData)
    } else if accounts.len() < 7 {
        r == Err::<Seq<Action>, PimeError>(PimeError::NotEnoughAccountKeys)
    } else {
        r == Err::<Seq<Action>, PimeError>(PimeError::IncorrectPDA) || exists|args: UnbookTransferInstructionData, vd: DerivedKey, vk: DerivedKey, tk: DerivedKey, dk: DerivedKey|
            args.payload() == data.subrange(0, 48) && spec_unbook_transfer(env, accounts, args, vd, vk, tk, dk) == r
    }
}

/// Unbook a transfer. Payload: see [`UnbookTransferInstructionData`].
pub fn process_unbook_transfer(env: &Env, accounts: &Vec<Account>, data: &[u8]) -> (r: Result<Vec<Action>, PimeError>)
    ensures
        unbook_transfer_outcome(*env, accounts@, data@, result_view(r)),
{
    let args = UnbookTransferInstructionData::unpack(data)?;
    if accounts.len() < 7 {
        return Err(PimeError::NotEnoughAccountKeys);
    }
    let (d0, d1, d2, d3) = unbook_transfer_derivations(accounts, &args);
    let vd = derive_key(&d0, &env.program_id)?;
    let vk = derive_key(&d1, &env.program_id)?;
    let tk = derive_key(&d2, &env.program_id)?;
    let dk = derive_key(&d3, &env.program_id)?;
    let r = unbook_transfer(env, accounts, &args, &vd, &vk, &tk, &dk);
    proof {
        assert(spec_unbook_transfer(*env, accounts@, args, vd, vk, tk, dk) == result_view(r));
    }
    r
}

/// The program's entry: checks that the instruction is addressed to this
/// program, then runs the handler its first byte selects on the rest.
pub fn process_instruction(env: &Env, program_id: &Pubkey, accounts: &Vec<Account>, data: &[u8]) -> (r: Result<Vec<Action>, PimeError>)
    ensures
        *program_id != env.program_id ==> r == Err::<Vec<Action>, PimeError>(PimeError::IncorrectProgramId),
        *program_id == env.program_id && data@.len() == 0 ==> r == Err::<Vec<Action>, PimeError>(
            PimeError::InvalidInstructionData,
        ),
        *program_id == env.program_id && data@.len() > 0 && !(exists|i: PimeInstruction|
            i.spec_discriminator() == data@[0]) ==> r == Err::<Vec<Action>, PimeError>(
            PimeError::InvalidInstructionData,
        ),
        *program_id == env.program_id && data@.len() > 0 && data@[0] == 0 ==> create_vault_outcome(
            *env,
            accounts@,
            data@.subrange(1, data@.len() as int),
            result_view(r),
        ),
        *program_id == env.program_id && data@.len() > 0 && data@[0] == 1 ==> deposit_to_vault_outcome(
            *env,
            accounts@,
            data@.subrange(1, data@.len() as int),
            result_view(r),
        ),
        *program_id == env.program_id && data@.len() > 0 && data@[0] == 2 ==> withdraw_from_vault_outcome(
            *env,
            accounts@,
            data@.subrange(1, data@.len() as int),
            result_view(r),
        ),
        *program_id == env.program_id && data@.len() > 0 && data@[0] == 3 ==> close_vault_outcome(
            *env,
            accounts@,
            data@.subrange(1, data@.len() as int),
            result_view(r),
        ),
        *program_id == env.program_id && data@.len() > 0 && data@[0] == 10 ==> book_transfer_outcome(
            *env,
            accounts@,
            data@.subrange(1, data@.len() as int),
            result_view(r),
        ),
        *program_id == env.program_id && data@.len() > 0 && data@[0] == 11 ==> execute_transfer_outcome(
            *env,
            accounts@,
            data@.subrange(1, data@.len() as int),
            result_view(r),
        ),
        *program_id == env.program_id && data@.len() > 0 && data@[0] == 12 ==> unbook_transfer_outcome(
            *env,
            accounts@,
            data@.subrange(1, data@.len() as int),
            result_view(r),
        ),
{
    if !pubkey_eq(program_id, &env.program_id) {
        return Err(PimeError::IncorrectProgramId);
    }
    let n = data.len();
    if n == 0 {
        return Err(PimeError::InvalidInstructionData);
    }
    let payload = slice_subrange(data, 1, n);
    let selected = PimeInstruction::try_from(data[0]);
    proof {
        // Each listed byte selects an instruction.
        assert(PimeInstruction::CreateVault.spec_discriminator() == 0);
        assert(PimeInstruction::DepositToVault.spec_discriminator() == 1);
        assert(PimeInstruction::WithdrawFromVault.spec_discriminator() == 2);
        assert(PimeInstruction::CloseVault.spec_discriminator() == 3);
        assert(PimeInstruction::BookTransfer.spec_discriminator() == 10);
        assert(PimeInstruction::ExecuteTransfer.spec_discriminator() == 11);
        assert(PimeInstruction::UnbookTransfer.spec_discriminator() == 12);
    }
    match selected? {
        PimeInstruction::CreateVault => process_create_vault(env, accounts, payload),
        PimeInstruction::DepositToVault => process_deposit_to_vault(env, accounts, payload),
        PimeInstruction::WithdrawFromVault => process_withdraw_from_vault(env, accounts, payload),
        PimeInstruction::CloseVault => process_close_vault(env, accounts, payload),
        PimeInstruction::BookTransfer => process_book_transfer(env, accounts, payload),
        PimeInstruction::ExecuteTransfer => process_transfer(env, accounts, payload),
        PimeInstruction::UnbookTransfer => process_unbook_transfer(env, accounts, payload),
    }
}

} // verus!
