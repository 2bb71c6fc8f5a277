use std::collections::HashMap;

use pime::errors::PimeError;
use pime::instructions::{
    BookTransferInstructionData, CloseVaultInstructionData, CreateVaultInstructionData,
    DepositToVaultInstructionData, ExecuteTransferInstructionData, UnbookTransferInstructionData,
    WithdrawFromVaultInstructionData,
};
use pime::ledger::{history_offset, Account, Action, DerivedKey, Env};
use pime::processors::transfer::{book_transfer, execute_transfer, unbook_transfer};
use pime::processors::vault::{close_vault, create_vault, deposit_to_vault, withdraw_from_vault};
use pime::states::{TransferData, Transmutable, VaultData};

type Key = [u8; 32];

const SYSTEM: Key = [0; 32];
const ALICE: Key = [1; 32];
const MINT: Key = [2; 32];
const ALICE_ATA: Key = [3; 32];
const DEST_OWNER: Key = [4; 32];
const ATA_PROGRAM: Key = [5; 32];
const TOKEN: Key = [6; 32];
const PROGRAM: Key = [7; 32];
const DEST_ATA: Key = [8; 32];
const BOB: Key = [9; 32];
const VAULT_DATA: Key = [10; 32];
const VAULT: Key = [11; 32];
const TRANSFER: Key = [12; 32];
const DEPOSIT: Key = [13; 32];
const BOB_VAULT: Key = [14; 32];

const T0: i64 = 1_700_000_000;

/// A stand-in for the runtime and the token program: it holds accounts and
/// carries out the actions a handler returns.
struct Ledger {
    accounts: HashMap<Key, Account>,
}

fn account(key: Key, owner: Key, lamports: u64, data: Vec<u8>) -> Account {
    Account { key, owner, lamports, is_signer: false, is_writable: false, data }
}

fn token_data(mint: Key, owner: Key, amount: u64) -> Vec<u8> {
    let mut d = vec![0u8; 165];
    d[0..32].copy_from_slice(&mint);
    d[32..64].copy_from_slice(&owner);
    d[64..72].copy_from_slice(&amount.to_le_bytes());
    d
}

impl Ledger {
    fn new() -> Self {
        let mut accounts = HashMap::new();
        accounts.insert(ALICE, account(ALICE, SYSTEM, 1_000_000_000, vec![]));
        accounts.insert(BOB, account(BOB, SYSTEM, 1_000_000_000, vec![]));
        accounts.insert(MINT, account(MINT, TOKEN, 1_000_000, vec![0u8; 82]));
        accounts.insert(TOKEN, account(TOKEN, SYSTEM, 1, vec![]));
        Ledger { accounts }
    }

    fn mint_to(&mut self, key: Key, owner: Key, amount: u64) {
        self.accounts.insert(key, account(key, TOKEN, 2_039_280, token_data(MINT, owner, amount)));
    }

    fn snap(&self, key: Key, is_signer: bool, is_writable: bool) -> Account {
        let mut a = self
            .accounts
            .get(&key)
            .cloned()
            .unwrap_or_else(|| account(key, SYSTEM, 0, vec![]));
        a.is_signer = is_signer;
        a.is_writable = is_writable;
        a
    }

    fn is_live(&self, key: &Key) -> bool {
        self.accounts.get(key).map(|a| a.lamports > 0).unwrap_or(false)
    }

    fn balance(&self, key: &Key) -> u64 {
        let d = &self.accounts[key].data;
        u64::from_le_bytes(d[64..72].try_into().unwrap())
    }

    fn vault_data(&self) -> VaultData {
        VaultData::from_account_data_bytes(&self.accounts[&VAULT_DATA].data).unwrap()
    }

    fn set_balance(&mut self, key: &Key, amount: u64) {
        let d = &mut self.accounts.get_mut(key).unwrap().data;
        d[64..72].copy_from_slice(&amount.to_le_bytes());
    }

    fn write(&mut self, key: &Key, offset: usize, bytes: &[u8]) {
        let d = &mut self.accounts.get_mut(key).unwrap().data;
        d[offset..offset + bytes.len()].copy_from_slice(bytes);
    }

    fn close(&mut self, key: &Key) {
        self.accounts.remove(key);
    }

    fn apply(&mut self, actions: Vec<Action>) {
        for a in actions {
            match a {
                Action::CreateAccount { account: key, space, owner, .. } => {
                    assert!(!self.is_live(&key));
                    self.accounts.insert(key, account(key, owner, 1_000, vec![0u8; space as usize]));
                }
                Action::InitializeTokenAccount { account: key, mint } => {
                    let d = token_data(mint, key, 0);
                    self.write(&key, 0, &d);
                }
                Action::TokenTransfer { from, to, amount, .. } => {
                    let f = self.balance(&from);
                    assert!(f >= amount, "insufficient funds");
                    let t = self.balance(&to);
                    self.set_balance(&from, f - amount);
                    self.set_balance(&to, t + amount);
                }
                Action::CloseTokenAccount { account: key, .. } => {
                    assert_eq!(self.balance(&key), 0);
                    self.close(&key);
                }
                Action::CreateAssociatedTokenAccount { account: key, wallet, mint, .. } => {
                    assert!(!self.is_live(&key));
                    self.accounts.insert(key, account(key, TOKEN, 2_039_280, token_data(mint, wallet, 0)));
                }
                Action::WriteVaultData { account: key, data } => {
                    self.write(&key, 0, &data.as_bytes());
                }
                Action::WriteHistory { account: key, slot, entry } => {
                    self.write(&key, history_offset(slot) as usize, &entry.as_bytes());
                }
                Action::WriteTransferData { account: key, data } => {
                    self.write(&key, 0, &data.as_bytes());
                }
                Action::CloseProgramAccount { account: key, .. } => {
                    self.close(&key);
                }
            }
        }
    }
}

fn env(now: i64) -> Env {
    Env { program_id: PROGRAM, token_program_id: TOKEN, now, epoch: 5 }
}

fn dk(key: Key) -> DerivedKey {
    DerivedKey { key, bump: 255 }
}

fn create(l: &mut Ledger, args: &CreateVaultInstructionData) -> Result<(), PimeError> {
    let accounts = vec![
        l.snap(ALICE, true, true),
        l.snap(VAULT_DATA, false, true),
        l.snap(VAULT, false, true),
        l.snap(MINT, false, false),
        l.snap(TOKEN, false, false),
    ];
    let actions = create_vault(&env(T0), &accounts, args, &dk(VAULT_DATA), &dk(VAULT))?;
    l.apply(actions);
    Ok(())
}

fn deposit_from(l: &mut Ledger, owner: Key, vault: Key, index: u64, amount: u64) -> Result<(), PimeError> {
    let args = DepositToVaultInstructionData::new(owner, index, amount);
    let accounts = vec![
        l.snap(ALICE, true, true),
        l.snap(ALICE_ATA, false, true),
        l.snap(vault, false, true),
        l.snap(MINT, false, false),
        l.snap(TOKEN, false, false),
    ];
    let actions = deposit_to_vault(&env(T0), &accounts, &args, &dk(vault))?;
    l.apply(actions);
    Ok(())
}

fn deposit(l: &mut Ledger, index: u64, amount: u64) -> Result<(), PimeError> {
    deposit_from(l, ALICE, VAULT, index, amount)
}

fn withdraw(l: &mut Ledger, index: u64, amount: u64, now: i64) -> Result<(), PimeError> {
    let args = WithdrawFromVaultInstructionData::new(amount, index);
    let accounts = vec![
        l.snap(ALICE, true, true),
        l.snap(VAULT_DATA, false, true),
        l.snap(VAULT, false, true),
        l.snap(ALICE_ATA, false, true),
        l.snap(MINT, false, false),
        l.snap(TOKEN, false, false),
    ];
    let actions = withdraw_from_vault(&env(now), &accounts, &args, &dk(VAULT_DATA), &dk(VAULT))?;
    l.apply(actions);
    Ok(())
}

fn close(l: &mut Ledger, index: u64) -> Result<(), PimeError> {
    let args = CloseVaultInstructionData::new(index);
    let accounts = vec![
        l.snap(ALICE, true, true),
        l.snap(VAULT_DATA, false, true),
        l.snap(VAULT, false, true),
        l.snap(MINT, false, false),
        l.snap(TOKEN, false, false),
    ];
    let actions = close_vault(&env(T0), &accounts, &args, &dk(VAULT_DATA), &dk(VAULT))?;
    l.apply(actions);
    Ok(())
}

fn book(l: &mut Ledger, args: &BookTransferInstructionData, now: i64) -> Result<(), PimeError> {
    let accounts = vec![
        l.snap(ALICE, true, true),
        l.snap(VAULT_DATA, false, true),
        l.snap(VAULT, false, true),
        l.snap(TRANSFER, false, true),
        l.snap(DEPOSIT, false, true),
        l.snap(MINT, false, false),
        l.snap(TOKEN, false, false),
    ];
    let actions = book_transfer(
        &env(now),
        &accounts,
        args,
        &dk(VAULT_DATA),
        &dk(VAULT),
        &dk(TRANSFER),
        &dk(DEPOSIT),
    )?;
    l.apply(actions);
    Ok(())
}

fn execute(l: &mut Ledger, index: u64, transfer_index: u64, now: i64) -> Result<(), PimeError> {
    let args = ExecuteTransferInstructionData::new(index, transfer_index);
    let accounts = vec![
        l.snap(ALICE, true, true),
        l.snap(VAULT_DATA, false, true),
        l.snap(VAULT, false, true),
        l.snap(TRANSFER, false, true),
        l.snap(DEPOSIT, false, true),
        l.snap(DEST_ATA, false, true),
        l.snap(MINT, false, false),
        l.snap(TOKEN, false, false),
        l.snap(SYSTEM, false, false),
        l.snap(ATA_PROGRAM, false, false),
        l.snap(DEST_OWNER, false, false),
    ];
    let actions = execute_transfer(
        &env(now),
        &accounts,
        &args,
        &dk(VAULT_DATA),
        &dk(VAULT),
        &dk(TRANSFER),
        &dk(DEPOSIT),
    )?;
    l.apply(actions);
    Ok(())
}

fn unbook(l: &mut Ledger, index: u64, transfer_index: u64) -> Result<(), PimeError> {
    let args = UnbookTransferInstructionData::new(index, transfer_index, DEST_ATA);
    let accounts = vec![
        l.snap(ALICE, true, true),
        l.snap(VAULT_DATA, false, true),
        l.snap(VAULT, false, true),
        l.snap(TRANSFER, false, true),
        l.snap(DEPOSIT, false, true),
        l.snap(MINT, false, false),
        l.snap(TOKEN, false, false),
    ];
    let actions = unbook_transfer(
        &env(T0),
        &accounts,
        &args,
        &dk(VAULT_DATA),
        &dk(VAULT),
        &dk(TRANSFER),
        &dk(DEPOSIT),
    )?;
    l.apply(actions);
    Ok(())
}

/// A vault for booking: N=3, A=4, transfers allowed, Wmin=0, Vmax=100, with
/// 500 deposited from 1000 minted.
fn booking_vault() -> Ledger {
    let mut l = Ledger::new();
    l.mint_to(ALICE_ATA, ALICE, 1_000);
    create(&mut l, &CreateVaultInstructionData::new(1, 2, 3, 4, true, 0, 100)).unwrap();
    deposit(&mut l, 1, 500).unwrap();
    l
}

fn booking(amount: u64) -> BookTransferInstructionData {
    BookTransferInstructionData::new(amount, DEST_ATA, 1, 1, 0, 100)
}

#[test]
fn litesvm_alice_creates_vault() {
    let mut l = Ledger::new();
    create(&mut l, &CreateVaultInstructionData::new(0, 1, 2, 3, false, 0, 0)).unwrap();
    let v = l.vault_data();
    assert_eq!(v.authority, ALICE);
    assert_eq!(v.timeframe(), 1);
    assert_eq!(v.max_transactions(), 2);
    assert_eq!(v.max_amount(), 3);
    assert_eq!(v.version(), 1);
    assert_eq!(l.accounts[&VAULT_DATA].data.len(), 98 + 2 * 16);
    assert_eq!(l.accounts[&VAULT_DATA].owner, PROGRAM);
    assert_eq!(l.accounts[&VAULT].owner, TOKEN);
    assert_eq!(l.balance(&VAULT), 0);
}

#[test]
fn litesvm_alice_deposits_to_vault() {
    let mut l = Ledger::new();
    create(&mut l, &CreateVaultInstructionData::new(1, 2, 3, 4, false, 0, 0)).unwrap();
    l.mint_to(ALICE_ATA, ALICE, 10_000);
    deposit(&mut l, 1, 4_000).unwrap();
    assert_eq!(l.balance(&VAULT), 4_000);
    assert_eq!(l.balance(&ALICE_ATA), 6_000);
}

#[test]
fn alice_deposits_to_bobs_uninitialized_vault() {
    let mut l = Ledger::new();
    l.mint_to(ALICE_ATA, ALICE, 10_000);
    assert!(!l.is_live(&BOB_VAULT));
    deposit_from(&mut l, BOB, BOB_VAULT, 1, 4_000).unwrap();
    assert_eq!(l.accounts[&BOB_VAULT].owner, TOKEN);
    assert_eq!(l.balance(&BOB_VAULT), 4_000);
    assert_eq!(l.balance(&ALICE_ATA), 6_000);
}

#[test]
fn vault_happy_paths_alice_creates_vault() {
    let mut l = Ledger::new();
    create(&mut l, &CreateVaultInstructionData::new(0, 1, 2, 3, true, 4, 5)).unwrap();
    let v = l.vault_data();
    assert!(v.allows_transfers());
    assert_eq!(v.transfer_min_warmup(), 4);
    assert_eq!(v.transfer_max_window(), 5);
    assert_eq!(v.open_transfers(), 0);
    assert_eq!(v.transaction_index(), 0);
}

#[test]
fn alice_closes_own_vault() {
    let mut l = Ledger::new();
    create(&mut l, &CreateVaultInstructionData::new(0, 1, 2, 3, true, 4, 5)).unwrap();
    close(&mut l, 0).unwrap();
    assert!(!l.is_live(&VAULT));
    assert!(!l.is_live(&VAULT_DATA));
}

#[test]
fn vault_happy_paths_alice_deposits_to_vault() {
    let mut l = Ledger::new();
    create(&mut l, &CreateVaultInstructionData::new(1, 2, 3, 4, true, 4, 5)).unwrap();
    l.mint_to(ALICE_ATA, ALICE, 10_000);
    deposit(&mut l, 1, 4_000).unwrap();
    assert_eq!(l.balance(&VAULT), 4_000);
}

#[test]
fn alice_withdraws_from_own_vault() {
    let mut l = Ledger::new();
    let args = CreateVaultInstructionData::new(1, 0, 10, 10, true, 5, 6);
    create(&mut l, &args).unwrap();
    l.mint_to(ALICE_ATA, ALICE, 10_000);
    deposit(&mut l, 1, 4_000).unwrap();
    withdraw(&mut l, args.index(), args.max_lamports(), T0).unwrap();
    assert_eq!(l.balance(&VAULT), 3_990);
    assert_eq!(l.balance(&ALICE_ATA), 6_010);
    assert_eq!(l.vault_data().transaction_index(), 1);
}

#[test]
fn alice_books_transfer() {
    let mut l = booking_vault();
    book(&mut l, &booking(250), T0).unwrap();
    assert_eq!(l.balance(&VAULT), 500 - 250);
    assert_eq!(l.balance(&DEPOSIT), 250);
    let t = TransferData::from_bytes(&l.accounts[&TRANSFER].data).unwrap();
    assert_eq!(t.amount(), 250);
    assert_eq!(t.created(), T0);
    assert_eq!(t.created_epoch(), 5);
    assert_eq!(t.warmup(), 0);
    assert_eq!(t.validity(), 100);
    assert_eq!(t.destination, DEST_ATA);
    assert_eq!(t.vault_data, VAULT_DATA);
    assert_eq!(l.vault_data().open_transfers(), 1);
}

#[test]
fn alice_executes_transfer() {
    let mut l = booking_vault();
    book(&mut l, &booking(250), T0).unwrap();
    execute(&mut l, 1, 1, T0).unwrap();
    assert_eq!(l.balance(&DEST_ATA), 250);
    assert_eq!(l.balance(&VAULT), 250);
    assert!(!l.is_live(&DEPOSIT));
    assert!(!l.is_live(&TRANSFER));
    assert_eq!(l.vault_data().open_transfers(), 0);
}

#[test]
fn alice_unbooks_transfer() {
    let mut l = booking_vault();
    book(&mut l, &booking(250), T0).unwrap();
    unbook(&mut l, 1, 1).unwrap();
    assert_eq!(l.balance(&VAULT), 500);
    assert!(!l.is_live(&DEPOSIT));
    assert!(!l.is_live(&TRANSFER));
    assert_eq!(l.vault_data().open_transfers(), 0);
}

#[test]
fn withdraw_within_limits_then_amount_limit() {
    let mut l = Ledger::new();
    create(&mut l, &CreateVaultInstructionData::new(1, 0, 3, 10, false, 0, 0)).unwrap();
    l.mint_to(ALICE_ATA, ALICE, 1_000);
    deposit(&mut l, 1, 500).unwrap();
    withdraw(&mut l, 1, 4, T0).unwrap();
    withdraw(&mut l, 1, 4, T0 + 1).unwrap();
    assert_eq!(withdraw(&mut l, 1, 4, T0 + 2), Err(PimeError::WithdrawLimitReachedAmount));
    assert_eq!(l.balance(&VAULT), 492);
}

#[test]
fn ring_buffer_wraps_then_transaction_limit() {
    let mut l = Ledger::new();
    create(&mut l, &CreateVaultInstructionData::new(1, 1_000_000, 3, 10, false, 0, 0)).unwrap();
    l.mint_to(ALICE_ATA, ALICE, 1_000);
    deposit(&mut l, 1, 500).unwrap();
    withdraw(&mut l, 1, 1, T0).unwrap();
    assert_eq!(l.vault_data().transaction_index(), 1);
    withdraw(&mut l, 1, 1, T0 + 1).unwrap();
    assert_eq!(l.vault_data().transaction_index(), 2);
    withdraw(&mut l, 1, 1, T0 + 2).unwrap();
    assert_eq!(l.vault_data().transaction_index(), 0);
    assert_eq!(withdraw(&mut l, 1, 1, T0 + 3), Err(PimeError::WithdrawLimitReachedTransactions));
    assert_eq!(l.balance(&VAULT), 497);
}

#[test]
fn window_expiry_frees_slots() {
    let mut l = Ledger::new();
    create(&mut l, &CreateVaultInstructionData::new(1, 10, 2, 10, false, 0, 0)).unwrap();
    l.mint_to(ALICE_ATA, ALICE, 1_000);
    deposit(&mut l, 1, 500).unwrap();
    withdraw(&mut l, 1, 5, T0).unwrap();
    withdraw(&mut l, 1, 5, T0 + 1).unwrap();
    assert_eq!(withdraw(&mut l, 1, 1, T0 + 10), Err(PimeError::WithdrawLimitReachedAmount));
    // At T0 + 11 the first withdrawal has left the window; the second has not.
    withdraw(&mut l, 1, 5, T0 + 11).unwrap();
    assert_eq!(withdraw(&mut l, 1, 1, T0 + 11), Err(PimeError::WithdrawLimitReachedAmount));
}

#[test]
fn book_and_execute_happy_path() {
    let mut l = booking_vault();
    book(&mut l, &booking(250), T0).unwrap();
    assert_eq!(l.balance(&VAULT), 250);
    assert_eq!(l.balance(&DEPOSIT), 250);
    assert_eq!(l.vault_data().open_transfers(), 1);
    execute(&mut l, 1, 1, T0).unwrap();
    assert_eq!(l.balance(&DEST_ATA), 250);
    assert!(!l.is_live(&DEPOSIT));
    assert!(!l.is_live(&TRANSFER));
    assert_eq!(l.vault_data().open_transfers(), 0);
}

#[test]
fn execute_into_existing_destination() {
    let mut l = booking_vault();
    l.mint_to(DEST_ATA, DEST_OWNER, 7);
    book(&mut l, &booking(250), T0).unwrap();
    execute(&mut l, 1, 1, T0 + 50).unwrap();
    assert_eq!(l.balance(&DEST_ATA), 257);
}

#[test]
fn unbook_returns_funds() {
    let mut l = booking_vault();
    book(&mut l, &booking(250), T0).unwrap();
    unbook(&mut l, 1, 1).unwrap();
    assert_eq!(l.balance(&VAULT), 500);
    assert_eq!(l.vault_data().open_transfers(), 0);
    assert!(!l.is_live(&TRANSFER));
    assert!(!l.is_live(&DEPOSIT));
}

#[test]
fn warmup_violation_on_book() {
    let mut l = Ledger::new();
    l.mint_to(ALICE_ATA, ALICE, 1_000);
    create(&mut l, &CreateVaultInstructionData::new(1, 2, 3, 4, true, 5, 100)).unwrap();
    deposit(&mut l, 1, 500).unwrap();
    let args = BookTransferInstructionData::new(250, DEST_ATA, 1, 1, 4, 100);
    assert_eq!(book(&mut l, &args, T0), Err(PimeError::VaultWarmupViolation));
    let too_long = BookTransferInstructionData::new(250, DEST_ATA, 1, 1, 5, 101);
    assert_eq!(book(&mut l, &too_long, T0), Err(PimeError::VaultWarmupViolation));
    assert!(!l.is_live(&TRANSFER));
}

#[test]
fn close_vault_gated_by_open_transfers() {
    let mut l = Ledger::new();
    l.mint_to(ALICE_ATA, ALICE, 1_000);
    create(&mut l, &CreateVaultInstructionData::new(1, 0, 3, 1_000, true, 0, 100)).unwrap();
    deposit(&mut l, 1, 100).unwrap();
    book(&mut l, &booking(50), T0).unwrap();
    assert_eq!(l.vault_data().open_transfers(), 1);
    assert_eq!(close(&mut l, 1), Err(PimeError::VaultHasOpenTransfers));
    unbook(&mut l, 1, 1).unwrap();
    assert_eq!(l.vault_data().open_transfers(), 0);
    assert_eq!(close(&mut l, 1), Err(PimeError::VaultIsNotEmpty));
    withdraw(&mut l, 1, 100, T0).unwrap();
    assert_eq!(l.balance(&VAULT), 0);
    close(&mut l, 1).unwrap();
    assert!(!l.is_live(&VAULT));
    assert!(!l.is_live(&VAULT_DATA));
}

#[test]
fn book_rejected_when_transfers_not_allowed() {
    let mut l = Ledger::new();
    l.mint_to(ALICE_ATA, ALICE, 1_000);
    create(&mut l, &CreateVaultInstructionData::new(1, 2, 3, 4, false, 0, 100)).unwrap();
    deposit(&mut l, 1, 500).unwrap();
    assert_eq!(book(&mut l, &booking(250), T0), Err(PimeError::TransfersNotAllowed));
}

#[test]
fn book_rejected_beyond_custody_balance() {
    let mut l = booking_vault();
    assert_eq!(book(&mut l, &booking(501), T0), Err(PimeError::InsufficientFunds));
}

#[test]
fn book_twice_on_same_index_rejected() {
    let mut l = booking_vault();
    book(&mut l, &booking(100), T0).unwrap();
    assert_eq!(book(&mut l, &booking(100), T0), Err(PimeError::AccountAlreadyInitialized));
}

#[test]
fn execute_before_warmup_and_after_expiry() {
    let mut l = Ledger::new();
    l.mint_to(ALICE_ATA, ALICE, 1_000);
    create(&mut l, &CreateVaultInstructionData::new(1, 2, 3, 4, true, 0, 100)).unwrap();
    deposit(&mut l, 1, 500).unwrap();
    let args = BookTransferInstructionData::new(250, DEST_ATA, 1, 1, 10, 20);
    book(&mut l, &args, T0).unwrap();
    assert_eq!(execute(&mut l, 1, 1, T0 + 9), Err(PimeError::TransferWarmingUp));
    assert_eq!(execute(&mut l, 1, 1, T0 + 21), Err(PimeError::TransferExpired));
    execute(&mut l, 1, 1, T0 + 20).unwrap();
    assert_eq!(l.balance(&DEST_ATA), 250);
}

#[test]
fn create_twice_rejected() {
    let mut l = Ledger::new();
    create(&mut l, &CreateVaultInstructionData::new(1, 2, 3, 4, true, 0, 100)).unwrap();
    assert_eq!(
        create(&mut l, &CreateVaultInstructionData::new(1, 2, 3, 4, true, 0, 100)),
        Err(PimeError::AccountAlreadyInitialized)
    );
}

#[test]
fn create_with_negative_timeframe_rejected() {
    let mut l = Ledger::new();
    assert_eq!(
        create(&mut l, &CreateVaultInstructionData::new(1, -1, 3, 4, true, 0, 100)),
        Err(PimeError::InvalidInstructionData)
    );
}

#[test]
fn create_after_deposit_keeps_custody() {
    let mut l = Ledger::new();
    l.mint_to(ALICE_ATA, ALICE, 1_000);
    deposit(&mut l, 1, 300).unwrap();
    create(&mut l, &CreateVaultInstructionData::new(1, 2, 3, 4, true, 0, 100)).unwrap();
    assert_eq!(l.balance(&VAULT), 300);
}

#[test]
fn withdraw_needs_signer() {
    let mut l = booking_vault();
    let args = WithdrawFromVaultInstructionData::new(1, 1);
    let accounts = vec![
        l.snap(ALICE, false, true),
        l.snap(VAULT_DATA, false, true),
        l.snap(VAULT, false, true),
        l.snap(ALICE_ATA, false, true),
        l.snap(MINT, false, false),
        l.snap(TOKEN, false, false),
    ];
    let r = withdraw_from_vault(&env(T0), &accounts, &args, &dk(VAULT_DATA), &dk(VAULT));
    assert_eq!(r.unwrap_err(), PimeError::MissingRequiredSignature);
    assert_eq!(withdraw(&mut l, 1, 1, T0).is_ok(), true);
}

#[test]
fn withdraw_with_wrong_vault_key_rejected() {
    let l = booking_vault();
    let args = WithdrawFromVaultInstructionData::new(1, 1);
    let accounts = vec![
        l.snap(ALICE, true, true),
        l.snap(VAULT_DATA, false, true),
        l.snap(VAULT, false, true),
        l.snap(ALICE_ATA, false, true),
        l.snap(MINT, false, false),
        l.snap(TOKEN, false, false),
    ];
    let r = withdraw_from_vault(&env(T0), &accounts, &args, &dk(VAULT_DATA), &dk(BOB_VAULT));
    assert_eq!(r.unwrap_err(), PimeError::IncorrectPDA);
}

#[test]
fn too_few_accounts_rejected() {
    let l = booking_vault();
    let args = WithdrawFromVaultInstructionData::new(1, 1);
    let accounts = vec![l.snap(ALICE, true, true)];
    let r = withdraw_from_vault(&env(T0), &accounts, &args, &dk(VAULT_DATA), &dk(VAULT));
    assert_eq!(r.unwrap_err(), PimeError::NotEnoughAccountKeys);
}

#[test]
fn unsupported_token_program_rejected() {
    let mut l = Ledger::new();
    let args = CreateVaultInstructionData::new(1, 2, 3, 4, true, 0, 100);
    let accounts = vec![
        l.snap(ALICE, true, true),
        l.snap(VAULT_DATA, false, true),
        l.snap(VAULT, false, true),
        l.snap(MINT, false, false),
        l.snap(BOB, false, false),
    ];
    let r = create_vault(&env(T0), &accounts, &args, &dk(VAULT_DATA), &dk(VAULT));
    assert_eq!(r.unwrap_err(), PimeError::InvalidTokenProgram);
    assert!(create(&mut l, &args).is_ok());
}

#[test]
fn deposit_with_other_token_program_rejected() {
    let mut l = Ledger::new();
    l.mint_to(ALICE_ATA, ALICE, 1_000);
    let args = DepositToVaultInstructionData::new(ALICE, 1, 10);
    let accounts = vec![
        l.snap(ALICE, true, true),
        l.snap(ALICE_ATA, false, true),
        l.snap(VAULT, false, true),
        l.snap(MINT, false, false),
        l.snap(BOB, false, false),
    ];
    let r = deposit_to_vault(&env(T0), &accounts, &args, &dk(VAULT));
    assert_eq!(r.unwrap_err(), PimeError::InvalidTokenProgram);
    assert!(!l.is_live(&VAULT));
}

#[test]
fn withdraw_with_other_token_program_rejected() {
    let l = booking_vault();
    let args = WithdrawFromVaultInstructionData::new(1, 1);
    let accounts = vec![
        l.snap(ALICE, true, true),
        l.snap(VAULT_DATA, false, true),
        l.snap(VAULT, false, true),
        l.snap(ALICE_ATA, false, true),
        l.snap(MINT, false, false),
        l.snap(BOB, false, false),
    ];
    let r = withdraw_from_vault(&env(T0), &accounts, &args, &dk(VAULT_DATA), &dk(VAULT));
    assert_eq!(r.unwrap_err(), PimeError::UnsupportedTokenProgram);
}
