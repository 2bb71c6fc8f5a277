use pime::codec::unpack_u64;
use pime::errors::PimeError;
use pime::instructions::{
    BookTransferInstructionData, CloseVaultInstructionData, CreateVaultInstructionData,
    DepositToVaultInstructionData, ExecuteTransferInstructionData, PimeInstruction,
    UnbookTransferInstructionData, WithdrawFromVaultInstructionData,
};
use pime::keys::{Derivation, SeedKind, SignerSeeds};
use pime::ledger::{history_offset, read_history, read_token_amount, Account, Env};
use pime::processors::{process_instruction, process_withdraw_from_vault};
use pime::states::{as_bytes, deserialize, from_bytes, serialize, TransferData, Transmutable, VaultData, VaultHistory};
use pime::withdraw::{admit_withdrawal, record_withdrawal};

fn sample_vault() -> VaultData {
    let mut v = VaultData::new([7; 32], -3, 1_000, 5, true, 60, 3_600);
    v.open_transfers = 2;
    v.set_transaction_index(&4);
    v
}

#[test]
fn vault_data_layout() {
    let v = sample_vault();
    let b = v.as_bytes();
    assert_eq!(b.len(), VaultData::LEN);
    assert_eq!(b[0], 0);
    assert_eq!(&b[1..9], &1u64.to_le_bytes());
    assert_eq!(&b[9..41], &[7u8; 32]);
    assert_eq!(&b[41..49], &(-3i64).to_le_bytes());
    assert_eq!(&b[49..57], &1_000u64.to_le_bytes());
    assert_eq!(&b[57..65], &5u64.to_le_bytes());
    assert_eq!(b[65], 1);
    assert_eq!(&b[66..74], &60i64.to_le_bytes());
    assert_eq!(&b[74..82], &3_600i64.to_le_bytes());
    assert_eq!(&b[82..90], &2u64.to_le_bytes());
    assert_eq!(&b[90..98], &4u64.to_le_bytes());
}

#[test]
fn vault_data_round_trip() {
    let v = sample_vault();
    let mut b = as_bytes(&v);
    let w: VaultData = from_bytes(&b).unwrap();
    assert_eq!(w.as_bytes(), b);
    assert_eq!(w.timeframe(), -3);
    assert_eq!(w.max_amount(), 1_000);
    assert_eq!(w.transaction_index(), 4);
    assert_eq!(w.open_transfers(), 2);
    // Trailing bytes (the history ring) are ignored.
    b.extend_from_slice(&[9u8; 32]);
    let x = VaultData::from_account_data_bytes(&b).unwrap();
    assert_eq!(x.as_bytes(), v.as_bytes());
}

#[test]
fn serialize_into_exact_buffer_and_read_back() {
    let t = TransferData::new([1; 32], 250, [2; 32], 1_700_000_000, 42, 10, 100);
    let mut buf = vec![0u8; TransferData::LEN];
    serialize(&t, &mut buf).unwrap();
    assert_eq!(buf, t.as_bytes());
    let u: TransferData = deserialize(&buf).unwrap();
    assert_eq!(u.as_bytes(), t.as_bytes());
    let mut short = vec![5u8; 10];
    assert_eq!(serialize(&t, &mut short), Err(PimeError::InvalidAccountData));
    assert_eq!(short, vec![5u8; 10]);
    let mut longer = buf.clone();
    longer.push(0);
    assert_eq!(deserialize::<TransferData>(&longer).unwrap_err(), PimeError::InvalidAccountData);
    let mut bad = buf.clone();
    bad[0] = 3;
    assert_eq!(deserialize::<TransferData>(&bad).unwrap_err(), PimeError::InvalidAccountData);
    assert_eq!(VaultHistory::size(), 16);
    assert_eq!(VaultData::size(), 98);
}

#[test]
fn vault_data_rejects_bad_images() {
    let b = sample_vault().as_bytes();
    assert_eq!(VaultData::from_account_data_bytes(&b[..97]).unwrap_err(), PimeError::AccountDataTooSmall);
    let mut wrong_tag = b.clone();
    wrong_tag[0] = 10;
    assert_eq!(VaultData::from_account_data_bytes(&wrong_tag).unwrap_err(), PimeError::InvalidAccountData);
    let mut wrong_flag = b.clone();
    wrong_flag[65] = 2;
    assert_eq!(VaultData::from_account_data_bytes(&wrong_flag).unwrap_err(), PimeError::InvalidAccountData);
}

#[test]
fn vault_data_setters() {
    let mut v = sample_vault();
    v.set_transfer_min_warmup(&11);
    v.set_transfer_max_window(&22);
    assert_eq!(v.transfer_min_warmup(), 11);
    assert_eq!(v.transfer_max_window(), 22);
    assert!(v.allows_transfers());
}

#[test]
fn transfer_data_round_trip() {
    let t = TransferData::new([1; 32], 250, [2; 32], 1_700_000_000, 42, 10, 100);
    let b = t.as_bytes();
    assert_eq!(b.len(), TransferData::LEN);
    assert_eq!(b[0], 10);
    assert_eq!(&b[73..81], &250u64.to_le_bytes());
    let u = TransferData::from_bytes(&b).unwrap();
    assert_eq!(u.as_bytes(), b);
    assert_eq!(u.amount(), 250);
    assert_eq!(u.created(), 1_700_000_000);
    assert_eq!(u.created_epoch(), 42);
    assert_eq!(u.warmup(), 10);
    assert_eq!(u.validity(), 100);
    assert_eq!(u.vault_data, [1; 32]);
    assert_eq!(u.destination, [2; 32]);
    assert_eq!(TransferData::from_bytes(&b[..112]).unwrap_err(), PimeError::AccountDataTooSmall);
    let mut wrong_tag = b.clone();
    wrong_tag[0] = 0;
    assert_eq!(TransferData::from_bytes(&wrong_tag).unwrap_err(), PimeError::InvalidAccountData);
}

#[test]
fn vault_history_round_trip() {
    let mut h = VaultHistory::new(-5, 9);
    h.set_timestamp(1_700_000_001);
    h.set_amount(77);
    let b = h.as_bytes();
    assert_eq!(b.len(), VaultHistory::LEN);
    assert_eq!(&b[0..8], &1_700_000_001i64.to_le_bytes());
    let g = VaultHistory::from_bytes(&b).unwrap();
    assert_eq!(g.timestamp(), 1_700_000_001);
    assert_eq!(g.amount(), 77);
    assert_eq!(VaultHistory::from_bytes(&b[..15]).unwrap_err(), PimeError::AccountDataTooSmall);
}

#[test]
fn history_ring_is_read_from_account_data() {
    let mut data = sample_vault().as_bytes();
    data.extend_from_slice(&VaultHistory::new(10, 1).as_bytes());
    data.extend_from_slice(&VaultHistory::new(20, 2).as_bytes());
    let ring = read_history(&data, 2);
    assert_eq!(ring.len(), 2);
    assert_eq!(ring[1].timestamp, 20);
    assert_eq!(ring[1].amount, 2);
    assert_eq!(history_offset(2), 130);
}

#[test]
fn token_amount_is_read_at_its_offset() {
    let mut d = vec![0u8; 165];
    d[64..72].copy_from_slice(&1234u64.to_le_bytes());
    assert_eq!(read_token_amount(&d), 1234);
}

#[test]
fn unpack_u64_reads_little_endian() {
    assert_eq!(unpack_u64(&[1, 2, 0, 0, 0, 0, 0, 0, 9]), Ok(513));
    assert_eq!(unpack_u64(&[1, 2, 3]), Err(PimeError::InvalidInstructionData));
}

#[test]
fn instruction_discriminators() {
    for (b, i) in [
        (0u8, PimeInstruction::CreateVault),
        (1, PimeInstruction::DepositToVault),
        (2, PimeInstruction::WithdrawFromVault),
        (3, PimeInstruction::CloseVault),
        (10, PimeInstruction::BookTransfer),
        (11, PimeInstruction::ExecuteTransfer),
        (12, PimeInstruction::UnbookTransfer),
    ] {
        assert_eq!(PimeInstruction::try_from(b), Ok(i));
        assert_eq!(i.discriminator(), b);
    }
    for b in [4u8, 5, 6, 9, 13, 255] {
        assert_eq!(PimeInstruction::try_from(b), Err(PimeError::InvalidInstructionData));
    }
}

#[test]
fn create_vault_instruction_layout() {
    let i = CreateVaultInstructionData::new(1, 2, 3, 4, true, 5, 6);
    let b = i.to_bytes();
    assert_eq!(b.len(), 1 + CreateVaultInstructionData::PAYLOAD_LEN);
    assert_eq!(b[0], 0);
    assert_eq!(b[33], 1);
    let j = CreateVaultInstructionData::unpack(&b[1..]).unwrap();
    assert_eq!((j.index(), j.timeframe(), j.max_transactions(), j.max_lamports()), (1, 2, 3, 4));
    assert!(j.allows_transfers);
    assert_eq!((j.transfer_min_warmup, j.transfer_max_window), (5, 6));
    assert_eq!(CreateVaultInstructionData::unpack(&b[1..49]).unwrap_err(), PimeError::InvalidInstructionData);
    let mut bad_flag = b.clone();
    bad_flag[33] = 7;
    assert_eq!(CreateVaultInstructionData::unpack(&bad_flag[1..]).unwrap_err(), PimeError::InvalidInstructionData);
}

#[test]
fn other_instruction_layouts() {
    let d = DepositToVaultInstructionData::new([3; 32], 8, 500);
    let b = d.to_bytes();
    assert_eq!((b[0], b.len()), (1, 49));
    let e = DepositToVaultInstructionData::unpack(&b[1..]).unwrap();
    assert_eq!((e.vault_owner(), e.index(), e.amount()), ([3; 32], 8, 500));

    let w = WithdrawFromVaultInstructionData::new(40, 2);
    let b = w.to_bytes();
    assert_eq!(&b, &[&[2u8][..], &2u64.to_le_bytes(), &40u64.to_le_bytes()].concat());
    let x = WithdrawFromVaultInstructionData::unpack(&b[1..]).unwrap();
    assert_eq!((x.vault_index(), x.amount()), (2, 40));

    let c = CloseVaultInstructionData::new(6);
    let b = c.to_bytes();
    assert_eq!((b[0], b.len()), (3, 9));
    assert_eq!(CloseVaultInstructionData::unpack(&b[1..]).unwrap().vault_index(), 6);

    let bk = BookTransferInstructionData::new(250, [4; 32], 1, 2, 3, 4);
    let b = bk.to_bytes();
    assert_eq!((b[0], b.len()), (10, 73));
    let bj = BookTransferInstructionData::unpack(&b[1..]).unwrap();
    assert_eq!((bj.amount(), bj.vault_index(), bj.transfer_index()), (250, 1, 2));
    assert_eq!((bj.destination, bj.warmup, bj.validity), ([4; 32], 3, 4));
    assert_eq!(BookTransferInstructionData::unpack(&b[1..72]).unwrap_err(), PimeError::InvalidInstructionData);

    let ex = ExecuteTransferInstructionData::new(1, 2);
    let b = ex.to_bytes();
    assert_eq!((b[0], b.len()), (11, 17));
    let ey = ExecuteTransferInstructionData::unpack(&b[1..]).unwrap();
    assert_eq!((ey.vault_index(), ey.transfer_index()), (1, 2));

    let ub = UnbookTransferInstructionData::new(1, 2, [5; 32]);
    let b = ub.to_bytes();
    assert_eq!((b[0], b.len()), (12, 49));
    let uc = UnbookTransferInstructionData::unpack(&b[1..]).unwrap();
    assert_eq!((uc.vault_index(), uc.transfer_index(), uc.destination), (1, 2, [5; 32]));
}

#[test]
fn derivation_seeds() {
    let d = Derivation {
        kind: SeedKind::VaultData,
        vault_index: 1,
        transfer_index: 0,
        authority: [1; 32],
        destination: [1; 32],
        mint: [2; 32],
        token_program: [3; 32],
    };
    let s = d.seeds();
    assert_eq!(s.len(), 5);
    assert_eq!(s[0], b"vault_data".to_vec());
    assert_eq!(s[1], 1u64.to_le_bytes().to_vec());
    assert_eq!(s[2], vec![1u8; 32]);
    let v = Derivation { kind: SeedKind::Vault, ..d };
    assert_eq!(v.seeds()[0], b"vault".to_vec());
    let t = Derivation { kind: SeedKind::Transfer, transfer_index: 9, destination: [4; 32], ..d };
    let ts = t.seeds();
    assert_eq!(ts.len(), 7);
    assert_eq!(ts[0], b"transfer".to_vec());
    assert_eq!(ts[2], 9u64.to_le_bytes().to_vec());
    assert_eq!(ts[4], vec![4u8; 32]);
    let dep = Derivation { kind: SeedKind::Deposit, ..t };
    assert_eq!(dep.seeds()[0], b"deposit".to_vec());
    let signer = SignerSeeds { derivation: dep, bump: 254 }.signer_seeds();
    assert_eq!(signer.len(), 8);
    assert_eq!(signer[7], vec![254u8]);
    let g = TransferData::get_deposit_signer_seeds(&[1; 32], &[4; 32], 1, 9, &[2; 32], &[3; 32], 254);
    assert_eq!(g, signer);
    let h = TransferData::get_transfer_signer_seeds(&[1; 32], &[4; 32], 1, 9, &[2; 32], &[3; 32], 7);
    assert_eq!(h[0], b"transfer".to_vec());
    assert_eq!(h[7], vec![7u8]);
}

#[test]
fn engine_admits_and_records() {
    let mut ring = vec![VaultHistory::new(0, 0); 3];
    assert_eq!(admit_withdrawal(&ring, 0, 100, 10, 10, 4), Ok(()));
    let c = record_withdrawal(&mut ring, 0, 100, 4);
    assert_eq!(c, 1);
    assert_eq!(ring[1].timestamp, 100);
    assert_eq!(admit_withdrawal(&ring, c, 105, 10, 10, 7), Err(PimeError::WithdrawLimitReachedAmount));
    // Ten seconds later the first record has left the window.
    assert_eq!(admit_withdrawal(&ring, c, 111, 10, 10, 7), Ok(()));
    assert_eq!(admit_withdrawal(&ring, c, 110, 10, 10, 7), Err(PimeError::WithdrawLimitReachedAmount));
    assert_eq!(admit_withdrawal(&ring, c, 100, 10, 3, 4), Err(PimeError::WithdrawLimitReachedAmount));
    let c = record_withdrawal(&mut ring, c, 101, 1);
    let c = record_withdrawal(&mut ring, c, 102, 1);
    assert_eq!(c, 0);
    assert_eq!(admit_withdrawal(&ring, c, 103, 10, 10, 1), Err(PimeError::WithdrawLimitReachedTransactions));
    // A zero timeframe never expires a record.
    assert_eq!(admit_withdrawal(&ring, c, 1_000_000, 0, 10, 1), Err(PimeError::WithdrawLimitReachedTransactions));
    let empty: Vec<VaultHistory> = Vec::new();
    assert_eq!(admit_withdrawal(&empty, 0, 1, 0, 10, 1), Err(PimeError::WithdrawLimitReachedTransactions));
}

#[test]
fn engine_reports_window_sum_overflow() {
    let ring = vec![VaultHistory::new(100, u64::MAX), VaultHistory::new(100, 1)];
    assert_eq!(admit_withdrawal(&ring, 1, 100, 0, u64::MAX, 0), Err(PimeError::ArithmeticOverflow));
    let ring = vec![VaultHistory::new(100, u64::MAX - 1), VaultHistory::new(0, 0)];
    assert_eq!(admit_withdrawal(&ring, 0, 100, 0, u64::MAX, 2), Err(PimeError::ArithmeticOverflow));
    assert_eq!(admit_withdrawal(&ring, 0, 100, 0, u64::MAX, 1), Ok(()));
    assert_eq!(admit_withdrawal(&ring, 0, 100, 0, 10, 1), Err(PimeError::WithdrawLimitReachedAmount));
}

fn env() -> Env {
    Env { program_id: [7; 32], token_program_id: [6; 32], now: 1, epoch: 0 }
}

#[test]
fn dispatch_checks_program_and_discriminator() {
    let accounts: Vec<Account> = Vec::new();
    assert_eq!(process_instruction(&env(), &[8; 32], &accounts, &[2]).unwrap_err(), PimeError::IncorrectProgramId);
    assert_eq!(process_instruction(&env(), &[7; 32], &accounts, &[]).unwrap_err(), PimeError::InvalidInstructionData);
    assert_eq!(process_instruction(&env(), &[7; 32], &accounts, &[4, 0, 0]).unwrap_err(), PimeError::InvalidInstructionData);
    assert_eq!(process_instruction(&env(), &[7; 32], &accounts, &[2, 0]).unwrap_err(), PimeError::InvalidInstructionData);
    let w = WithdrawFromVaultInstructionData::new(1, 1).to_bytes();
    assert_eq!(process_instruction(&env(), &[7; 32], &accounts, &w).unwrap_err(), PimeError::NotEnoughAccountKeys);
    let c = CreateVaultInstructionData::new(1, 2, 3, 4, true, 0, 0).to_bytes();
    assert_eq!(process_instruction(&env(), &[7; 32], &accounts, &c).unwrap_err(), PimeError::NotEnoughAccountKeys);
    assert_eq!(process_instruction(&env(), &[7; 32], &accounts, &c[..30]).unwrap_err(), PimeError::InvalidInstructionData);
}

#[test]
fn key_derivation_needs_the_runtime() {
    let accounts: Vec<Account> = (0u8..6)
        .map(|i| Account { key: [i; 32], owner: [0; 32], lamports: 1, is_signer: true, is_writable: true, data: vec![] })
        .collect();
    let w = WithdrawFromVaultInstructionData::new(1, 1).to_bytes();
    // Off-chain no bump is found, so no derived key matches.
    assert_eq!(process_withdraw_from_vault(&env(), &accounts, &w[1..]).unwrap_err(), PimeError::IncorrectPDA);
    assert_eq!(VaultData::get_vault_data_pda(&[1; 32], 1, &[2; 32], &[3; 32], &[7; 32]), None);
}

#[test]
fn error_codes_are_distinct() {
    let all = [
        PimeError::IncorrectProgramId,
        PimeError::IncorrectPDA,
        PimeError::InvalidTokenProgram,
        PimeError::UnsupportedTokenProgram,
        PimeError::IllegalOwner,
        PimeError::UninitializedAccount,
        PimeError::AccountAlreadyInitialized,
        PimeError::AccountDataTooSmall,
        PimeError::InvalidAccountData,
        PimeError::Immutable,
        PimeError::MissingRequiredSignature,
        PimeError::NotEnoughAccountKeys,
        PimeError::WithdrawLimitReachedAmount,
        PimeError::WithdrawLimitReachedTransactions,
        PimeError::VaultWarmupViolation,
        PimeError::TransfersNotAllowed,
        PimeError::InsufficientFunds,
        PimeError::VaultHasOpenTransfers,
        PimeError::VaultIsNotEmpty,
        PimeError::DestinationMismatch,
        PimeError::TransferWarmingUp,
        PimeError::TransferExpired,
        PimeError::InvalidInstructionData,
        PimeError::ArithmeticOverflow,
    ];
    let mut codes: Vec<u32> = all.iter().map(|e| e.code()).collect();
    codes.sort();
    codes.dedup();
    assert_eq!(codes.len(), all.len());
}
