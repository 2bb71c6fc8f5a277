//! What a handler sees of the ledger, and what it asks the ledger to do.
//!
//! Handlers read [`Account`] snapshots and return a list of [`Action`]s; the
//! program's entrypoint carries the actions out, in order, as cross-program
//! invocations and writes into account data. A failed action aborts the
//! whole transaction.
use crate::codec::{lemma_le_lengths, read_i64, read_u64};
use crate::errors::PimeError;
use crate::keys::SignerSeeds;
use crate::states::{lemma_transfer_data_round_trip, lemma_vault_data_round_trip, lemma_vault_history_round_trip, TransferData, Transmutable, VaultData, VaultHistory};
use pinocchio::pubkey::Pubkey;
use vstd::bytes::spec_u64_from_le_bytes;
use vstd::prelude::*;

verus! {

/// Size of a token account.
pub const TOKEN_ACCOUNT_LEN: u64 = 165;

/// An account as the program sees it during one instruction.
#[derive(Debug, Clone)]
pub struct Account {
    pub key: Pubkey,
    pub owner: Pubkey,
    pub lamports: u64,
    pub is_signer: bool,
    pub is_writable: bool,
    pub data: Vec<u8>,
}

/// What the runtime tells the program besides the accounts.
#[derive(Debug, Clone, Copy)]
pub struct Env {
    /// The program's own id.
    pub program_id: Pubkey,
    /// The canonical token program, the only one supported.
    pub token_program_id: Pubkey,
    /// Wall-clock time, in unix seconds.
    pub now: i64,
    pub epoch: u64,
}

/// A derived key with the bump that produced it.
#[derive(Debug, Clone, Copy)]
pub struct DerivedKey {
    pub key: Pubkey,
    pub bump: u8,
}

/// One effect of an instruction on the ledger.
#[derive(Debug, Clone, Copy)]
pub enum Action {
    /// The system program allocates `account` with `space` bytes, rent-exempt,
    /// paid by `payer` and owned by `owner`; the program signs for `account`.
    CreateAccount { account: Pubkey, payer: Pubkey, space: u64, owner: Pubkey, signer: SignerSeeds },
    /// The token program initialises `account` for `mint`, with `account`
    /// itself as its owner.
    InitializeTokenAccount { account: Pubkey, mint: Pubkey },
    /// The token program moves `amount` from `from` to `to`; when `signer`
    /// is given the program signs for `authority`, else `authority` signed
    /// the transaction.
    TokenTransfer { from: Pubkey, to: Pubkey, authority: Pubkey, amount: u64, signer: Option<SignerSeeds> },
    /// The token program closes `account`, sending its lamports to `destination`.
    CloseTokenAccount { account: Pubkey, destination: Pubkey, signer: SignerSeeds },
    /// The associated-token helper `program` creates `account` for `wallet`
    /// and `mint`, through `system_program`.
    CreateAssociatedTokenAccount {
        payer: Pubkey,
        account: Pubkey,
        wallet: Pubkey,
        mint: Pubkey,
        system_program: Pubkey,
        program: Pubkey,
    },
    /// Writes a vault header at the start of `account`'s data.
    WriteVaultData { account: Pubkey, data: VaultData },
    /// Writes `entry` into history slot `slot` of vault `account`.
    WriteHistory { account: Pubkey, slot: u64, entry: VaultHistory },
    /// Writes a transfer record at the start of `account`'s data.
    WriteTransferData { account: Pubkey, data: TransferData },
    /// Closes a program-owned account: its lamports go to `destination`.
    CloseProgramAccount { account: Pubkey, destination: Pubkey },
}

/// Byte offset of history slot `slot` in a vault's data.
pub fn history_offset(slot: u64) -> (r: u64)
    requires
        98 + 16 * slot <= u64::MAX,
    ensures
        r == 98 + 16 * slot,
{
    98 + 16 * slot
}

/// The vault header at the start of `data`.
pub open spec fn header_of(data: Seq<u8>) -> VaultData {
    choose|v: VaultData| v.image() == data.subrange(0, 98)
}

/// The transfer record at the start of `data`.
pub open spec fn transfer_of(data: Seq<u8>) -> TransferData {
    choose|v: TransferData| v.image() == data.subrange(0, 113)
}

/// History slot `i` of a vault's data.
pub open spec fn history_at(data: Seq<u8>, i: int) -> VaultHistory {
    choose|h: VaultHistory| h.image() == data.subrange(98 + 16 * i, 98 + 16 * i + 16)
}

/// The first `n` history slots of a vault's data.
pub open spec fn slots_of(data: Seq<u8>, n: int) -> Seq<VaultHistory> {
    Seq::new(n as nat, |i: int| history_at(data, i))
}

/// The balance recorded in a token account's data.
pub open spec fn token_amount_of(data: Seq<u8>) -> u64 {
    spec_u64_from_le_bytes(data.subrange(64, 72))
}

/// Reads a vault header.
pub fn read_vault_data(data: &[u8]) -> (r: Result<VaultData, PimeError>)
    ensures
        r == match VaultData::image_error(data@) {
            Some(e) => Err(e),
            None => Ok(header_of(data@)),
        },
{
    let r = VaultData::from_account_data_bytes(data);
    if let Ok(v) = r {
        proof {
            lemma_vault_data_round_trip(v, header_of(data@));
        }
    }
    r
}

/// Reads a transfer record.
pub fn read_transfer_data(data: &[u8]) -> (r: Result<TransferData, PimeError>)
    ensures
        r == match TransferData::image_error(data@) {
            Some(e) => Err(e),
            None => Ok(transfer_of(data@)),
        },
{
    let r = <TransferData as Transmutable>::from_bytes(data);
    if let Ok(v) = r {
        proof {
            lemma_transfer_data_round_trip(v, transfer_of(data@));
            lemma_transfer_data_round_trip(v, v);
        }
    }
    r
}

/// Reads the first `n` history slots of a vault's data.
pub fn read_history(data: &[u8], n: u64) -> (r: Vec<VaultHistory>)
    requires
        98 + 16 * n <= data@.len(),
    ensures
        r@ == slots_of(data@, n as int),
{
    let len = data.len();
    let mut r: Vec<VaultHistory> = Vec::new();
    let mut i: u64 = 0;
    while i < n
        invariant
            98 + 16 * n <= data@.len(),
            len == data@.len(),
            i <= n,
            r@.len() == i,
            forall|k: int| 0 <= k < i ==> r@[k] == history_at(data@, k),
        decreases n - i,
    {
        let off = (98 + 16 * i) as usize;
        let h = VaultHistory::new(read_i64(data, off), read_u64(data, off + 8));
        proof {
            lemma_le_lengths();
            lemma_vault_history_round_trip(h, history_at(data@, i as int));
            assert(h.image() =~= data@.subrange(off as int, off + 16));
        }
        r.push(h);
        i = i + 1;
    }
    assert(r@ =~= slots_of(data@, n as int));
    r
}

/// Reads the balance of a token account.
pub fn read_token_amount(data: &[u8]) -> (r: u64)
    requires
        data@.len() >= 72,
    ensures
        r == token_amount_of(data@),
{
    read_u64(data, 64)
}

} // verus!
