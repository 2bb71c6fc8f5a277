//! The booking state machine: book, execute, unbook.
use crate::errors::PimeError;
use crate::instructions::{BookTransferInstructionData, ExecuteTransferInstructionData, UnbookTransferInstructionData};
use crate::keys::SeedKind;
use crate::ledger::{Account, Action, DerivedKey, Env};
use crate::processors::checks::{check_custody, check_fresh, check_transfer_data, check_vault_data, preamble, spec_custody, spec_fresh, spec_preamble, spec_transfer_data, spec_transfer_signer, spec_vault_data, spec_vault_signer, transfer_signer, vault_signer};
use crate::processors::vault::{create_custody, spec_create_custody};
use crate::states::{TransferData, VaultData};
use pinocchio::pubkey::pubkey_eq;
use vstd::prelude::*;

verus! {

/// Accounts: authority (signer), vault data, vault custody, transfer record,
/// deposit custody, mint, token program.
pub open spec fn spec_book_transfer(
    env: Env,
    accounts: Seq<Account>,
    args: BookTransferInstructionData,
    vault_data_key: DerivedKey,
    vault_key: DerivedKey,
    transfer_key: DerivedKey,
    deposit_key: DerivedKey,
) -> Result<Seq<Action>, PimeError> {
    if args.warmup < 0 || args.validity < 0 {
        Err(PimeError::InvalidInstructionData)
    } else if accounts.len() < 7 {
        Err(PimeError::NotEnoughAccountKeys)
    } else {
        let authority = accounts[0];
        let vault_data = accounts[1];
        let vault = accounts[2];
        let transfer = accounts[3];
        let deposit = accounts[4];
        let mint = accounts[5];
        let token_program = accounts[6];
        match spec_preamble(env, authority, mint, token_program, PimeError::UnsupportedTokenProgram) {
            Err(e) => Err(e),
            Ok(_) => match spec_vault_data(env, vault_data, vault_data_key.key) {
                Err(e) => Err(e),
                Ok(h) => if !h.allows_transfers {
                    Err(PimeError::TransfersNotAllowed)
                } else if args.warmup < h.transfer_min_warmup || args.warmup > h.transfer_max_window
                    || args.validity > h.transfer_max_window {
                    Err(PimeError::VaultWarmupViolation)
                } else {
                    match spec_custody(vault, vault_key.key, token_program.key) {
                        Err(e) => Err(e),
                        Ok(balance) => match spec_fresh(transfer, transfer_key.key) {
                            Err(e) => Err(e),
                            Ok(_) => match spec_fresh(deposit, deposit_key.key) {
                                Err(e) => Err(e),
                                Ok(_) => if balance < args.amount {
                                    Err(PimeError::InsufficientFunds)
                                } else if h.open_transfers == u64::MAX {
                                    Err(PimeError::ArithmeticOverflow)
                                } else {
                                    Ok(
                                        seq![
                                            Action::CreateAccount {
                                                account: transfer.key,
                                                payer: authority.key,
                                                space: 113,
                                                owner: env.program_id,
                                                signer: spec_transfer_signer(
                                                    SeedKind::Transfer,
                                                    args.vault_index,
                                                    args.transfer_index,
                                                    authority.key,
                                                    args.destination,
                                                    mint.key,
                                                    token_program.key,
                                                    transfer_key.bump,
                                                ),
                                            },
                                            Action::WriteTransferData {
                                                account: transfer.key,
                                                data: TransferData {
                                                    version: 1,
                                                    vault_data: vault_data.key,
                                                    destination: args.destination,
                                                    amount: args.amount,
                                                    created: env.now,
                                                    created_epoch: env.epoch,
                                                    warmup: args.warmup,
                                                    validity: args.validity,
                                                },
                                            },
                                        ] + spec_create_custody(
                                            authority.key,
                                            deposit.key,
                                            mint.key,
                                            spec_transfer_signer(
                                                SeedKind::Deposit,
                                                args.vault_index,
                                                args.transfer_index,
                                                authority.key,
                                                args.destination,
                                                mint.key,
                                                token_program.key,
                                                deposit_key.bump,
                                            ),
                                            token_program.key,
                                        ) + seq![
                                            Action::TokenTransfer {
                                                from: vault.key,
                                                to: deposit.key,
                                                authority: vault.key,
                                                amount: args.amount,
                                                signer: Some(
                                                    spec_vault_signer(
                                                        SeedKind::Vault,
                                                        args.vault_index,
                                                        authority.key,
                                                        mint.key,
                                                        token_program.key,
                                                        vault_key.bump,
                                                    ),
                                                ),
                                            },
                                            Action::WriteVaultData {
                                                account: vault_data.key,
                                                data: VaultData {
                                                    open_transfers: (h.open_transfers + 1) as u64,
                                                    ..h
                                                },
                                            },
                                        ],
                                    )
                                },
                            },
                        },
                    }
                },
            },
        }
    }
}

/// Books a transfer: records it, creates its deposit custody, and moves
/// `args.amount` from the vault's custody into the deposit custody.
pub fn book_transfer(
    env: &Env,
    accounts: &Vec<Account>,
    args: &BookTransferInstructionData,
    vault_data_key: &DerivedKey,
    vault_key: &DerivedKey,
    transfer_key: &DerivedKey,
    deposit_key: &DerivedKey,
) -> (r: Result<Vec<Action>, PimeError>)
    ensures
        match r {
            Ok(v) => spec_book_transfer(
                *env,
                accounts@,
                *args,
                *vault_data_key,
                *vault_key,
                *transfer_key,
                *deposit_key,
            ) == Ok::<Seq<Action>, PimeError>(v@),
            Err(e) => spec_book_transfer(
                *env,
                accounts@,
                *args,
                *vault_data_key,
                *vault_key,
                *transfer_key,
                *deposit_key,
            ) == Err::<Seq<Action>, PimeError>(e),
        },
{
    if args.warmup < 0 || args.validity < 0 {
        return Err(PimeError::InvalidInstructionData);
    }
    if accounts.len() < 7 {
        return Err(PimeError::NotEnoughAccountKeys);
    }
    let authority = &accounts[0];
    let vault_data = &accounts[1];
    let vault = &accounts[2];
    let transfer = &accounts[3];
    let deposit = &accounts[4];
    let mint = &accounts[5];
    let token_program = &accounts[6];
    preamble(env, authority, mint, token_program, PimeError::UnsupportedTokenProgram)?;
    let h = check_vault_data(env, vault_data, &vault_data_key.key)?;
    if !h.allows_transfers {
        return Err(PimeError::TransfersNotAllowed);
    }
    if args.warmup < h.transfer_min_warmup || args.warmup > h.transfer_max_window || args.validity
        > h.transfer_max_window {
        return Err(PimeError::VaultWarmupViolation);
    }
    let balance = check_custody(vault, &vault_key.key, &token_program.key)?;
    check_fresh(transfer, &transfer_key.key)?;
    check_fresh(deposit, &deposit_key.key)?;
    if balance < args.amount {
        return Err(PimeError::InsufficientFunds);
    }
    if h.open_transfers == u64::MAX {
        return Err(PimeError::ArithmeticOverflow);
    }
    let mut actions: Vec<Action> = Vec::new();
    actions.push(
        Action::CreateAccount {
            account: transfer.key,
            payer: authority.key,
            space: TransferData::LEN as u64,
            owner: env.program_id,
            signer: transfer_signer(
                SeedKind::Transfer,
                args.vault_index,
                args.transfer_index,
                &authority.key,
                &args.destination,
                &mint.key,
                &token_program.key,
                transfer_key.bump,
            ),
        },
    );
    actions.push(
        Action::WriteTransferData {
            account: transfer.key,
            data: TransferData::new(
                vault_data.key,
                args.amount,
                args.destination,
                env.now,
                env.epoch,
                args.warmup,
                args.validity,
            ),
        },
    );
    let deposit_signer = transfer_signer(
        SeedKind::Deposit,
        args.vault_index,
        args.transfer_index,
        &authority.key,
        &args.destination,
        &mint.key,
        &token_program.key,
        deposit_key.bump,
    );
    create_custody(&mut actions, &authority.key, &deposit.key, &mint.key, deposit_signer, &token_program.key);
    actions.push(
        Action::TokenTransfer {
            from: vault.key,
            to: deposit.key,
            authority: vault.key,
            amount: args.amount,
            signer: Some(
                vault_signer(
                    SeedKind::Vault,
                    args.vault_index,
                    &authority.key,
                    &mint.key,
                    &token_program.key,
                    vault_key.bump,
                ),
            ),
        },
    );
    let mut header = h;
    header.open_transfers = h.open_transfers + 1;
    actions.push(Action::WriteVaultData { account: vault_data.key, data: header });
    assert(actions@ =~= spec_book_transfer(
        *env,
        accounts@,
        *args,
        *vault_data_key,
        *vault_key,
        *transfer_key,
        *deposit_key,
    )->Ok_0);
    Ok(actions)
}

} // verus!

verus! {

/// Accounts: authority (signer), vault data, vault custody, transfer record,
/// deposit custody, destination token account, mint, token program; when
/// the destination does not exist yet, also the system program, the
/// associated-token program and the destination's wallet.
pub open spec fn spec_execute_transfer(
    env: Env,
    accounts: Seq<Account>,
    args: ExecuteTransferInstructionData,
    vault_data_key: DerivedKey,
    vault_key: DerivedKey,
    transfer_key: DerivedKey,
    deposit_key: DerivedKey,
) -> Result<Seq<Action>, PimeError> {
    if accounts.len() < 8 {
        Err(PimeError::NotEnoughAccountKeys)
    } else {
        let authority = accounts[0];
        let vault_data = accounts[1];
        let vault = accounts[2];
        let transfer = accounts[3];
        let deposit = accounts[4];
        let destination = accounts[5];
        let mint = accounts[6];
        let token_program = accounts[7];
        match spec_preamble(env, authority, mint, token_program, PimeError::UnsupportedTokenProgram) {
            Err(e) => Err(e),
            Ok(_) => match spec_vault_data(env, vault_data, vault_data_key.key) {
                Err(e) => Err(e),
                Ok(h) => match spec_custody(vault, vault_key.key, token_program.key) {
                    Err(e) => Err(e),
                    Ok(_) => match spec_transfer_data(env, transfer, transfer_key.key) {
                        Err(e) => Err(e),
                        Ok(t) => match spec_custody(deposit, deposit_key.key, token_program.key) {
                            Err(e) => Err(e),
                            Ok(_) => if t.vault_data != vault_data.key {
                                Err(PimeError::InvalidAccountData)
                            } else if t.destination != destination.key {
                                Err(PimeError::DestinationMismatch)
                            } else if env.now < t.created + t.warmup {
                                Err(PimeError::TransferWarmingUp)
                            } else if env.now > t.created + t.validity {
                                Err(PimeError::TransferExpired)
                            } else if h.open_transfers == 0 {
                                Err(PimeError::ArithmeticOverflow)
                            } else if destination.lamports == 0 && accounts.len() < 11 {
                                Err(PimeError::NotEnoughAccountKeys)
                            } else if destination.lamports != 0 && destination.owner
                                != token_program.key {
                                Err(PimeError::IllegalOwner)
                            } else {
                                let signer = spec_transfer_signer(
                                    SeedKind::Deposit,
                                    args.vault_index,
                                    args.transfer_index,
                                    authority.key,
                                    destination.key,
                                    mint.key,
                                    token_program.key,
                                    deposit_key.bump,
                                );
                                let settle = seq![
                                    Action::TokenTransfer {
                                        from: deposit.key,
                                        to: destination.key,
                                        authority: deposit.key,
                                        amount: t.amount,
                                        signer: Some(signer),
                                    },
                                    Action::CloseTokenAccount {
                                        account: deposit.key,
                                        destination: vault.key,
                                        signer,
                                    },
                                    Action::CloseProgramAccount {
                                        account: transfer.key,
                                        destination: authority.key,
                                    },
                                    Action::WriteVaultData {
                                        account: vault_data.key,
                                        data: VaultData {
                                            open_transfers: (h.open_transfers - 1) as u64,
                                            ..h
                                        },
                                    },
                                ];
                                if destination.lamports == 0 {
                                    Ok(
                                        seq![
                                            Action::CreateAssociatedTokenAccount {
                                                payer: authority.key,
                                                account: destination.key,
                                                wallet: accounts[10].key,
                                                mint: mint.key,
                                                system_program: accounts[8].key,
                                                program: accounts[9].key,
                                            },
                                        ] + settle,
                                    )
                                } else {
                                    Ok(settle)
                                }
                            },
                        },
                    },
                },
            },
        }
    }
}

/// Delivers a booked transfer once its warm-up has passed and before it
/// expires; closes its deposit custody and its record.
pub fn execute_transfer(
    env: &Env,
    accounts: &Vec<Account>,
    args: &ExecuteTransferInstructionData,
    vault_data_key: &DerivedKey,
    vault_key: &DerivedKey,
    transfer_key: &DerivedKey,
    deposit_key: &DerivedKey,
) -> (r: Result<Vec<Action>, PimeError>)
    ensures
        match r {
            Ok(v) => spec_execute_transfer(
                *env,
                accounts@,
                *args,
                *vault_data_key,
                *vault_key,
                *transfer_key,
                *deposit_key,
            ) == Ok::<Seq<Action>, PimeError>(v@),
            Err(e) => spec_execute_transfer(
                *env,
                accounts@,
                *args,
                *vault_data_key,
                *vault_key,
                *transfer_key,
                *deposit_key,
            ) == Err::<Seq<Action>, PimeError>(e),
        },
{
    if accounts.len() < 8 {
        return Err(PimeError::NotEnoughAccountKeys);
    }
    let authority = &accounts[0];
    let vault_data = &accounts[1];
    let vault = &accounts[2];
    let transfer = &accounts[3];
    let deposit = &accounts[4];
    let destination = &accounts[5];
    let mint = &accounts[6];
    let token_program = &accounts[7];
    preamble(env, authority, mint, token_program, PimeError::UnsupportedTokenProgram)?;
    let h = check_vault_data(env, vault_data, &vault_data_key.key)?;
    check_custody(vault, &vault_key.key, &token_program.key)?;
    let t = check_transfer_data(env, transfer, &transfer_key.key)?;
    check_custody(deposit, &deposit_key.key, &token_program.key)?;
    if !pubkey_eq(&t.vault_data, &vault_data.key) {
        return Err(PimeError::InvalidAccountData);
    }
    if !pubkey_eq(&t.destination, &destination.key) {
        return Err(PimeError::DestinationMismatch);
    }
    if (env.now as i128) < (t.created as i128) + (t.warmup as i128) {
        return Err(PimeError::TransferWarmingUp);
    }
    if (env.now as i128) > (t.created as i128) + (t.validity as i128) {
        return Err(PimeError::TransferExpired);
    }
    if h.open_transfers == 0 {
        return Err(PimeError::ArithmeticOverflow);
    }
    if destination.lamports == 0 && accounts.len() < 11 {
        return Err(PimeError::NotEnoughAccountKeys);
    }
    if destination.lamports != 0 && !pubkey_eq(&destination.owner, &token_program.key) {
        return Err(PimeError::IllegalOwner);
    }
    let signer = transfer_signer(
        SeedKind::Deposit,
        args.vault_index,
        args.transfer_index,
        &authority.key,
        &destination.key,
        &mint.key,
        &token_program.key,
        deposit_key.bump,
    );
    let mut actions: Vec<Action> = Vec::new();
    if destination.lamports == 0 {
        actions.push(
            Action::CreateAssociatedTokenAccount {
                payer: authority.key,
                account: destination.key,
                wallet: accounts[10].key,
                mint: mint.key,
                system_program: accounts[8].key,
                program: accounts[9].key,
            },
        );
    }
    actions.push(
        Action::TokenTransfer {
            from: deposit.key,
            to: destination.key,
            authority: deposit.key,
            amount: t.amount,
            signer: Some(signer),
        },
    );
    actions.push(Action::CloseTokenAccount { account: deposit.key, destination: vault.key, signer });
    actions.push(Action::CloseProgramAccount { account: transfer.key, destination: authority.key });
    let mut header = h;
    header.open_transfers = h.open_transfers - 1;
    actions.push(Action::WriteVaultData { account: vault_data.key, data: header });
    assert(actions@ =~= spec_execute_transfer(
        *env,
        accounts@,
        *args,
        *vault_data_key,
        *vault_key,
        *transfer_key,
        *deposit_key,
    )->Ok_0);
    Ok(actions)
}

/// Accounts: authority (signer), vault data, vault custody, transfer record,
/// deposit custody, mint, token program.
pub open spec fn spec_unbook_transfer(
    env: Env,
    accounts: Seq<Account>,
    args: UnbookTransferInstructionData,
    vault_data_key: DerivedKey,
    vault_key: DerivedKey,
    transfer_key: DerivedKey,
    deposit_key: DerivedKey,
) -> Result<Seq<Action>, PimeError> {
    if accounts.len() < 7 {
        Err(PimeError::NotEnoughAccountKeys)
    } else {
        let authority = accounts[0];
        let vault_data = accounts[1];
        let vault = accounts[2];
        let transfer = accounts[3];
        let deposit = accounts[4];
        let mint = accounts[5];
        let token_program = accounts[6];
        match spec_preamble(env, authority, mint, token_program, PimeError::UnsupportedTokenProgram) {
            Err(e) => Err(e),
            Ok(_) => match spec_vault_data(env, vault_data, vault_data_key.key) {
                Err(e) => Err(e),
                Ok(h) => match spec_custody(vault, vault_key.key, token_program.key) {
                    Err(e) => Err(e),
                    Ok(_) => match spec_transfer_data(env, transfer, transfer_key.key) {
                        Err(e) => Err(e),
                        Ok(t) => match spec_custody(deposit, deposit_key.key, token_program.key) {
                            Err(e) => Err(e),
                            Ok(balance) => if t.vault_data != vault_data.key {
                                Err(PimeError::InvalidAccountData)
                            } else if h.open_transfers == 0 {
                                Err(PimeError::ArithmeticOverflow)
                            } else {
                                let signer = spec_transfer_signer(
                                    SeedKind::Deposit,
                                    args.vault_index,
                                    args.transfer_index,
                                    authority.key,
                                    args.destination,
                                    mint.key,
                                    token_program.key,
                                    deposit_key.bump,
                                );
                                Ok(
                                    seq![
                                        Action::TokenTransfer {
                                            from: deposit.key,
                                            to: vault.key,
                                            authority: deposit.key,
                                            amount: balance,
                                            signer: Some(signer),
                                        },
                                        Action::CloseTokenAccount {
                                            account: deposit.key,
                                            destination: authority.key,
                                            signer,
                                        },
                                        Action::CloseProgramAccount {
                                            account: transfer.key,
                                            destination: authority.key,
                                        },
                                        Action::WriteVaultData {
                                            account: vault_data.key,
                                            data: VaultData {
                                                open_transfers: (h.open_transfers - 1) as u64,
                                                ..h
                                            },
                                        },
                                    ],
                                )
                            },
                        },
                    },
                },
            },
        }
    }
}

/// Cancels a booked transfer: the deposit custody's whole balance goes back
/// to the vault, and the deposit custody and the record are closed.
pub fn unbook_transfer(
    env: &Env,
    accounts: &Vec<Account>,
    args: &UnbookTransferInstructionData,
    vault_data_key: &DerivedKey,
    vault_key: &DerivedKey,
    transfer_key: &DerivedKey,
    deposit_key: &DerivedKey,
) -> (r: Result<Vec<Action>, PimeError>)
    ensures
        match r {
            Ok(v) => spec_unbook_transfer(
                *env,
                accounts@,
                *args,
                *vault_data_key,
                *vault_key,
                *transfer_key,
                *deposit_key,
            ) == Ok::<Seq<Action>, PimeError>(v@),
            Err(e) => spec_unbook_transfer(
                *env,
                accounts@,
                *args,
                *vault_data_key,
                *vault_key,
                *transfer_key,
                *deposit_key,
            ) == Err::<Seq<Action>, PimeError>(e),
        },
{
    if accounts.len() < 7 {
        return Err(PimeError::NotEnoughAccountKeys);
    }
    let authority = &accounts[0];
    let vault_data = &accounts[1];
    let vault = &accounts[2];
    let transfer = &accounts[3];
    let deposit = &accounts[4];
    let mint = &accounts[5];
    let token_program = &accounts[6];
    preamble(env, authority, mint, token_program, PimeError::UnsupportedTokenProgram)?;
    let h = check_vault_data(env, vault_data, &vault_data_key.key)?;
    check_custody(vault, &vault_key.key, &token_program.key)?;
    let t = check_transfer_data(env, transfer, &transfer_key.key)?;
    let balance = check_custody(deposit, &deposit_key.key, &token_program.key)?;
    if !pubkey_eq(&t.vault_data, &vault_data.key) {
        return Err(PimeError::InvalidAccountData);
    }
    if h.open_transfers == 0 {
        return Err(PimeError::ArithmeticOverflow);
    }
    let signer = transfer_signer(
        SeedKind::Deposit,
        args.vault_index,
        args.transfer_index,
        &authority.key,
        &args.destination,
        &mint.key,
        &token_program.key,
        deposit_key.bump,
    );
    let mut actions: Vec<Action> = Vec::new();
    actions.push(
        Action::TokenTransfer {
            from: deposit.key,
            to: vault.key,
            authority: deposit.key,
            amount: balance,
            signer: Some(signer),
        },
    );
    actions.push(Action::CloseTokenAccount { account: deposit.key, destination: authority.key, signer });
    actions.push(Action::CloseProgramAccount { account: transfer.key, destination: authority.key });
    let mut header = h;
    header.open_transfers = h.open_transfers - 1;
    actions.push(Action::WriteVaultData { account: vault_data.key, data: header });
    assert(actions@ =~= spec_unbook_transfer(
        *env,
        accounts@,
        *args,
        *vault_data_key,
        *vault_key,
        *transfer_key,
        *deposit_key,
    )->Ok_0);
    Ok(actions)
}

} // verus!
