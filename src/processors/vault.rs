//! Vault lifecycle: create, deposit, withdraw, close.
//!
//! Each handler takes the accounts in the instruction's order and the keys
//! derived for the vault's accounts, and returns the actions that carry out
//! the instruction.
use crate::errors::PimeError;
use crate::instructions::{CloseVaultInstructionData, CreateVaultInstructionData, DepositToVaultInstructionData, WithdrawFromVaultInstructionData};
use crate::keys::SeedKind;
use crate::ledger::{read_history, slots_of, Account, Action, DerivedKey, Env, TOKEN_ACCOUNT_LEN};
use crate::processors::checks::{check_custody, check_fresh, check_vault_data, preamble, spec_custody, spec_fresh, spec_preamble, spec_vault_data, spec_vault_signer, vault_signer};
use crate::states::{VaultData, VaultHistory};
use crate::withdraw::{admit_withdrawal, next_cursor, record_withdrawal, withdrawal_decision};
use pinocchio::pubkey::{pubkey_eq, Pubkey};
use vstd::prelude::*;

verus! {

/// The history ring must fit in the account, and its cursor inside the ring.
pub open spec fn spec_ring(h: VaultData, data: Seq<u8>) -> Result<(), PimeError> {
    if data.len() < 98 + 16 * h.max_transactions {
        Err(PimeError::AccountDataTooSmall)
    } else if h.max_transactions > 0 && h.transaction_index >= h.max_transactions {
        Err(PimeError::InvalidAccountData)
    } else {
        Ok(())
    }
}

/// Accounts: authority (signer), vault data, vault custody, recipient token
/// account, mint, token program.
pub open spec fn spec_withdraw_from_vault(
    env: Env,
    accounts: Seq<Account>,
    args: WithdrawFromVaultInstructionData,
    vault_data_key: DerivedKey,
    vault_key: DerivedKey,
) -> Result<Seq<Action>, PimeError> {
    if accounts.len() < 6 {
        Err(PimeError::NotEnoughAccountKeys)
    } else {
        let authority = accounts[0];
        let vault_data = accounts[1];
        let vault = accounts[2];
        let to = accounts[3];
        let mint = accounts[4];
        let token_program = accounts[5];
        match spec_preamble(env, authority, mint, token_program, PimeError::UnsupportedTokenProgram) {
            Err(e) => Err(e),
            Ok(_) => if to.lamports == 0 {
                Err(PimeError::UninitializedAccount)
            } else {
                match spec_vault_data(env, vault_data, vault_data_key.key) {
                    Err(e) => Err(e),
                    Ok(h) => match spec_custody(vault, vault_key.key, token_program.key) {
                        Err(e) => Err(e),
                        Ok(_) => match spec_ring(h, vault_data.data@) {
                            Err(e) => Err(e),
                            Ok(_) => match withdrawal_decision(
                                slots_of(vault_data.data@, h.max_transactions as int),
                                h.transaction_index as int,
                                env.now,
                                h.timeframe,
                                h.max_amount,
                                args.amount,
                            ) {
                                Err(e) => Err(e),
                                Ok(_) => {
                                    let next = next_cursor(
                                        h.transaction_index as int,
                                        h.max_transactions as int,
                                    ) as u64;
                                    Ok(
                                        seq![
                                            Action::TokenTransfer {
                                                from: vault.key,
                                                to: to.key,
                                                authority: vault.key,
                                                amount: args.amount,
                                                signer: Some(
                                                    spec_vault_signer(
                                                        SeedKind::Vault,
                                                        args.vault_index,
                                                        authority.key,
                                                        mint.key,
                                                        token_program.key,
                                                        vault_key.bump,
                                                    ),
                                                ),
                                            },
                                            Action::WriteHistory {
                                                account: vault_data.key,
                                                slot: next,
                                                entry: VaultHistory {
                                                    timestamp: env.now,
                                                    amount: args.amount,
                                                },
                                            },
                                            Action::WriteVaultData {
                                                account: vault_data.key,
                                                data: VaultData { transaction_index: next, ..h },
                                            },
                                        ],
                                    )
                                },
                            },
                        },
                    },
                }
            },
        }
    }
}

/// Withdraws `args.amount` from the vault's custody to the recipient, if the
/// rolling window admits it.
pub fn withdraw_from_vault(
    env: &Env,
    accounts: &Vec<Account>,
    args: &WithdrawFromVaultInstructionData,
    vault_data_key: &DerivedKey,
    vault_key: &DerivedKey,
) -> (r: Result<Vec<Action>, PimeError>)
    ensures
        match r {
            Ok(v) => spec_withdraw_from_vault(*env, accounts@, *args, *vault_data_key, *vault_key)
                == Ok::<Seq<Action>, PimeError>(v@),
            Err(e) => spec_withdraw_from_vault(*env, accounts@, *args, *vault_data_key, *vault_key)
                == Err::<Seq<Action>, PimeError>(e),
        },
{
    if accounts.len() < 6 {
        return Err(PimeError::NotEnoughAccountKeys);
    }
    let authority = &accounts[0];
    let vault_data = &accounts[1];
    let vault = &accounts[2];
    let to = &accounts[3];
    let mint = &accounts[4];
    let token_program = &accounts[5];
    preamble(env, authority, mint, token_program, PimeError::UnsupportedTokenProgram)?;
    if to.lamports == 0 {
        return Err(PimeError::UninitializedAccount);
    }
    let h = check_vault_data(env, vault_data, &vault_data_key.key)?;
    check_custody(vault, &vault_key.key, &token_program.key)?;
    let n = h.max_transactions;
    if (vault_data.data.len() as u128) < 98 + 16 * (n as u128) {
        return Err(PimeError::AccountDataTooSmall);
    }
    if n > 0 && h.transaction_index >= n {
        return Err(PimeError::InvalidAccountData);
    }
    let mut history = read_history(vault_data.data.as_slice(), n);
    admit_withdrawal(&history, h.transaction_index, env.now, h.timeframe, h.max_amount, args.amount)?;
    let next = record_withdrawal(&mut history, h.transaction_index, env.now, args.amount);
    let signer = vault_signer(
        SeedKind::Vault,
        args.vault_index,
        &authority.key,
        &mint.key,
        &token_program.key,
        vault_key.bump,
    );
    let mut header = h;
    header.transaction_index = next;
    let mut actions: Vec<Action> = Vec::new();
    actions.push(
        Action::TokenTransfer {
            from: vault.key,
            to: to.key,
            authority: vault.key,
            amount: args.amount,
            signer: Some(signer),
        },
    );
    actions.push(
        Action::WriteHistory {
            account: vault_data.key,
            slot: next,
            entry: VaultHistory::new(env.now, args.amount),
        },
    );
    actions.push(Action::WriteVaultData { account: vault_data.key, data: header });
    assert(actions@ =~= spec_withdraw_from_vault(
        *env,
        accounts@,
        *args,
        *vault_data_key,
        *vault_key,
    )->Ok_0);
    Ok(actions)
}

} // verus!

verus! {

/// Accounts: authority (signer), vault data, vault custody, mint, token
/// program. A custody that a deposit already created is kept.
pub open spec fn spec_create_vault(
    env: Env,
    accounts: Seq<Account>,
    args: CreateVaultInstructionData,
    vault_data_key: DerivedKey,
    vault_key: DerivedKey,
) -> Result<Seq<Action>, PimeError> {
    if args.timeframe < 0 || args.transfer_min_warmup < 0 || args.transfer_max_window < 0 {
        Err(PimeError::InvalidInstructionData)
    } else if accounts.len() < 5 {
        Err(PimeError::NotEnoughAccountKeys)
    } else {
        let authority = accounts[0];
        let vault_data = accounts[1];
        let vault = accounts[2];
        let mint = accounts[3];
        let token_program = accounts[4];
        match spec_preamble(env, authority, mint, token_program, PimeError::InvalidTokenProgram) {
            Err(e) => Err(e),
            Ok(_) => match spec_fresh(vault_data, vault_data_key.key) {
                Err(e) => Err(e),
                Ok(_) => if 98 + 16 * args.max_transactions > u64::MAX {
                    Err(PimeError::ArithmeticOverflow)
                } else if vault.key != vault_key.key {
                    Err(PimeError::IncorrectPDA)
                } else if !vault.is_writable {
                    Err(PimeError::Immutable)
                } else if vault.lamports != 0 && vault.owner != token_program.key {
                    Err(PimeError::InvalidTokenProgram)
                } else {
                    let records = seq![
                        Action::CreateAccount {
                            account: vault_data.key,
                            payer: authority.key,
                            space: (98 + 16 * args.max_transactions) as u64,
                            owner: env.program_id,
                            signer: spec_vault_signer(
                                SeedKind::VaultData,
                                args.index,
                                authority.key,
                                mint.key,
                                token_program.key,
                                vault_data_key.bump,
                            ),
                        },
                        Action::WriteVaultData {
                            account: vault_data.key,
                            data: VaultData {
                                version: 1,
                                authority: authority.key,
                                timeframe: args.timeframe,
                                max_amount: args.max_lamports,
                                max_transactions: args.max_transactions,
                                allows_transfers: args.allows_transfers,
                                transfer_min_warmup: args.transfer_min_warmup,
                                transfer_max_window: args.transfer_max_window,
                                open_transfers: 0,
                                transaction_index: 0,
                            },
                        },
                    ];
                    if vault.lamports == 0 {
                        Ok(records + spec_create_custody(authority.key, vault.key, mint.key, spec_vault_signer(
                            SeedKind::Vault,
                            args.index,
                            authority.key,
                            mint.key,
                            token_program.key,
                            vault_key.bump,
                        ), token_program.key))
                    } else {
                        Ok(records)
                    }
                },
            },
        }
    }
}

/// Allocating a custody token account and initialising it as its own owner.
pub open spec fn spec_create_custody(
    payer: Pubkey,
    account: Pubkey,
    mint: Pubkey,
    signer: crate::keys::SignerSeeds,
    token_program: Pubkey,
) -> Seq<Action> {
    seq![
        Action::CreateAccount {
            account,
            payer,
            space: 165,
            owner: token_program,
            signer,
        },
        Action::InitializeTokenAccount { account, mint },
    ]
}

pub(crate) fn create_custody(
    actions: &mut Vec<Action>,
    payer: &Pubkey,
    account: &Pubkey,
    mint: &Pubkey,
    signer: crate::keys::SignerSeeds,
    token_program: &Pubkey,
)
    ensures
        final(actions)@ == old(actions)@ + spec_create_custody(
            *payer,
            *account,
            *mint,
            signer,
            *token_program,
        ),
{
    let ghost before = actions@;
    actions.push(
        Action::CreateAccount {
            account: *account,
            payer: *payer,
            space: TOKEN_ACCOUNT_LEN,
            owner: *token_program,
            signer,
        },
    );
    actions.push(Action::InitializeTokenAccount { account: *account, mint: *mint });
    assert(actions@ =~= before + spec_create_custody(
        *payer,
        *account,
        *mint,
        signer,
        *token_program,
    ));
}

/// Creates a vault: its state record sized for `max_transactions` history
/// slots, and its custody unless one exists.
pub fn create_vault(
    env: &Env,
    accounts: &Vec<Account>,
    args: &CreateVaultInstructionData,
    vault_data_key: &DerivedKey,
    vault_key: &DerivedKey,
) -> (r: Result<Vec<Action>, PimeError>)
    ensures
        match r {
            Ok(v) => spec_create_vault(*env, accounts@, *args, *vault_data_key, *vault_key) == Ok::<
                Seq<Action>,
                PimeError,
            >(v@),
            Err(e) => spec_create_vault(*env, accounts@, *args, *vault_data_key, *vault_key)
                == Err::<Seq<Action>, PimeError>(e),
        },
{
    if args.timeframe < 0 || args.transfer_min_warmup < 0 || args.transfer_max_window < 0 {
        return Err(PimeError::InvalidInstructionData);
    }
    if accounts.len() < 5 {
        return Err(PimeError::NotEnoughAccountKeys);
    }
    let authority = &accounts[0];
    let vault_data = &accounts[1];
    let vault = &accounts[2];
    let mint = &accounts[3];
    let token_program = &accounts[4];
    preamble(env, authority, mint, token_program, PimeError::InvalidTokenProgram)?;
    check_fresh(vault_data, &vault_data_key.key)?;
    if args.max_transactions > (u64::MAX - 98) / 16 {
        return Err(PimeError::ArithmeticOverflow);
    }
    let space = 98 + 16 * args.max_transactions;
    if !pubkey_eq(&vault.key, &vault_key.key) {
        return Err(PimeError::IncorrectPDA);
    }
    if !vault.is_writable {
        return Err(PimeError::Immutable);
    }
    if vault.lamports != 0 && !pubkey_eq(&vault.owner, &token_program.key) {
        return Err(PimeError::InvalidTokenProgram);
    }
    let mut actions: Vec<Action> = Vec::new();
    actions.push(
        Action::CreateAccount {
            account: vault_data.key,
            payer: authority.key,
            space,
            owner: env.program_id,
            signer: vault_signer(
                SeedKind::VaultData,
                args.index,
                &authority.key,
                &mint.key,
                &token_program.key,
                vault_data_key.bump,
            ),
        },
    );
    actions.push(
        Action::WriteVaultData {
            account: vault_data.key,
            data: VaultData::new(
                authority.key,
                args.timeframe,
                args.max_lamports,
                args.max_transactions,
                args.allows_transfers,
                args.transfer_min_warmup,
                args.transfer_max_window,
            ),
        },
    );
    if vault.lamports == 0 {
        let signer = vault_signer(
            SeedKind::Vault,
            args.index,
            &authority.key,
            &mint.key,
            &token_program.key,
            vault_key.bump,
        );
        create_custody(&mut actions, &authority.key, &vault.key, &mint.key, signer, &token_program.key);
    }
    assert(actions@ =~= spec_create_vault(
        *env,
        accounts@,
        *args,
        *vault_data_key,
        *vault_key,
    )->Ok_0);
    Ok(actions)
}

/// Accounts: depositor (signer), source token account, vault custody, mint,
/// token program. The custody key is derived from `args.vault_owner`.
pub open spec fn spec_deposit_to_vault(
    env: Env,
    accounts: Seq<Account>,
    args: DepositToVaultInstructionData,
    vault_key: DerivedKey,
) -> Result<Seq<Action>, PimeError> {
    if accounts.len() < 5 {
        Err(PimeError::NotEnoughAccountKeys)
    } else {
        let from_authority = accounts[0];
        let from = accounts[1];
        let vault = accounts[2];
        let mint = accounts[3];
        let token_program = accounts[4];
        match spec_preamble(env, from_authority, mint, token_program, PimeError::InvalidTokenProgram) {
            Err(e) => Err(e),
            Ok(_) => if vault.key != vault_key.key {
                Err(PimeError::IncorrectPDA)
            } else if !vault.is_writable {
                Err(PimeError::Immutable)
            } else if vault.lamports != 0 && vault.owner != token_program.key {
                Err(PimeError::IllegalOwner)
            } else {
                let deposit = seq![
                    Action::TokenTransfer {
                        from: from.key,
                        to: vault.key,
                        authority: from_authority.key,
                        amount: args.amount,
                        signer: None,
                    },
                ];
                if vault.lamports == 0 {
                    Ok(spec_create_custody(from_authority.key, vault.key, mint.key, spec_vault_signer(
                        SeedKind::Vault,
                        args.index,
                        args.vault_owner,
                        mint.key,
                        token_program.key,
                        vault_key.bump,
                    ), token_program.key) + deposit)
                } else {
                    Ok(deposit)
                }
            },
        }
    }
}

/// Moves `args.amount` from the depositor's token account into the vault's
/// custody, creating the custody first when it does not exist.
pub fn deposit_to_vault(
    env: &Env,
    accounts: &Vec<Account>,
    args: &DepositToVaultInstructionData,
    vault_key: &DerivedKey,
) -> (r: Result<Vec<Action>, PimeError>)
    ensures
        match r {
            Ok(v) => spec_deposit_to_vault(*env, accounts@, *args, *vault_key) == Ok::<
                Seq<Action>,
                PimeError,
            >(v@),
            Err(e) => spec_deposit_to_vault(*env, accounts@, *args, *vault_key) == Err::<
                Seq<Action>,
                PimeError,
            >(e),
        },
{
    if accounts.len() < 5 {
        return Err(PimeError::NotEnoughAccountKeys);
    }
    let from_authority = &accounts[0];
    let from = &accounts[1];
    let vault = &accounts[2];
    let mint = &accounts[3];
    let token_program = &accounts[4];
    preamble(env, from_authority, mint, token_program, PimeError::InvalidTokenProgram)?;
    if !pubkey_eq(&vault.key, &vault_key.key) {
        return Err(PimeError::IncorrectPDA);
    }
    if !vault.is_writable {
        return Err(PimeError::Immutable);
    }
    if vault.lamports != 0 && !pubkey_eq(&vault.owner, &token_program.key) {
        return Err(PimeError::IllegalOwner);
    }
    let mut actions: Vec<Action> = Vec::new();
    if vault.lamports == 0 {
        let signer = vault_signer(
            SeedKind::Vault,
            args.index,
            &args.vault_owner,
            &mint.key,
            &token_program.key,
            vault_key.bump,
        );
        create_custody(&mut actions, &from_authority.key, &vault.key, &mint.key, signer, &token_program.key);
    }
    actions.push(
        Action::TokenTransfer {
            from: from.key,
            to: vault.key,
            authority: from_authority.key,
            amount: args.amount,
            signer: None,
        },
    );
    assert(actions@ =~= spec_deposit_to_vault(*env, accounts@, *args, *vault_key)->Ok_0);
    Ok(actions)
}

/// Accounts: authority (signer), vault data, vault custody, mint, token program.
pub open spec fn spec_close_vault(
    env: Env,
    accounts: Seq<Account>,
    args: CloseVaultInstructionData,
    vault_data_key: DerivedKey,
    vault_key: DerivedKey,
) -> Result<Seq<Action>, PimeError> {
    if accounts.len() < 5 {
        Err(PimeError::NotEnoughAccountKeys)
    } else {
        let authority = accounts[0];
        let vault_data = accounts[1];
        let vault = accounts[2];
        let mint = accounts[3];
        let token_program = accounts[4];
        match spec_preamble(env, authority, mint, token_program, PimeError::UnsupportedTokenProgram) {
            Err(e) => Err(e),
            Ok(_) => match spec_vault_data(env, vault_data, vault_data_key.key) {
                Err(e) => Err(e),
                Ok(h) => match spec_custody(vault, vault_key.key, token_program.key) {
                    Err(e) => Err(e),
                    Ok(balance) => if h.open_transfers != 0 {
                        Err(PimeError::VaultHasOpenTransfers)
                    } else if balance != 0 {
                        Err(PimeError::VaultIsNotEmpty)
                    } else {
                        Ok(
                            seq![
                                Action::CloseTokenAccount {
                                    account: vault.key,
                                    destination: authority.key,
                                    signer: spec_vault_signer(
                                        SeedKind::Vault,
                                        args.vault_index,
                                        authority.key,
                                        mint.key,
                                        token_program.key,
                                        vault_key.bump,
                                    ),
                                },
                                Action::CloseProgramAccount {
                                    account: vault_data.key,
                                    destination: authority.key,
                                },
                            ],
                        )
                    },
                },
            },
        }
    }
}

/// Closes an empty vault with no open transfers: its custody and its state
/// record, both rents going to the authority.
pub fn close_vault(
    env: &Env,
    accounts: &Vec<Account>,
    args: &CloseVaultInstructionData,
    vault_data_key: &DerivedKey,
    vault_key: &DerivedKey,
) -> (r: Result<Vec<Action>, PimeError>)
    ensures
        match r {
            Ok(v) => spec_close_vault(*env, accounts@, *args, *vault_data_key, *vault_key) == Ok::<
                Seq<Action>,
                PimeError,
            >(v@),
            Err(e) => spec_close_vault(*env, accounts@, *args, *vault_data_key, *vault_key)
                == Err::<Seq<Action>, PimeError>(e),
        },
{
    if accounts.len() < 5 {
        return Err(PimeError::NotEnoughAccountKeys);
    }
    let authority = &accounts[0];
    let vault_data = &accounts[1];
    let vault = &accounts[2];
    let mint = &accounts[3];
    let token_program = &accounts[4];
    preamble(env, authority, mint, token_program, PimeError::UnsupportedTokenProgram)?;
    let h = check_vault_data(env, vault_data, &vault_data_key.key)?;
    let balance = check_custody(vault, &vault_key.key, &token_program.key)?;
    if h.open_transfers != 0 {
        return Err(PimeError::VaultHasOpenTransfers);
    }
    if balance != 0 {
        return Err(PimeError::VaultIsNotEmpty);
    }
    let mut actions: Vec<Action> = Vec::new();
    actions.push(
        Action::CloseTokenAccount {
            account: vault.key,
            destination: authority.key,
            signer: vault_signer(
                SeedKind::Vault,
                args.vault_index,
                &authority.key,
                &mint.key,
                &token_program.key,
                vault_key.bump,
            ),
        },
    );
    actions.push(Action::CloseProgramAccount { account: vault_data.key, destination: authority.key });
    assert(actions@ =~= spec_close_vault(
        *env,
        accounts@,
        *args,
        *vault_data_key,
        *vault_key,
    )->Ok_0);
    Ok(actions)
}

} // verus!
