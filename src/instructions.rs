//! Instruction discriminators and the fixed layouts of instruction payloads.
//!
//! An instruction is one discriminator byte followed by its payload; every
//! integer is little-endian. A payload may be longer than its layout: the
//! bytes after it are ignored.
use crate::codec::{flag_byte, le_i64, lemma_le_lengths, push_i64, push_key, push_u64, read_i64, read_key, read_u64};
use crate::errors::PimeError;
use pinocchio::pubkey::Pubkey;
use vstd::bytes::spec_u64_to_le_bytes;
use vstd::prelude::*;

verus! {

/// The program's instructions.
#[derive(Debug, Clone, Copy, PartialEq, Eq, Structural)]
pub enum PimeInstruction {
    CreateVault,
    DepositToVault,
    WithdrawFromVault,
    CloseVault,
    BookTransfer,
    ExecuteTransfer,
    UnbookTransfer,
}

impl PimeInstruction {
    pub open spec fn spec_discriminator(self) -> u8 {
        match self {
            PimeInstruction::CreateVault => 0,
            PimeInstruction::DepositToVault => 1,
            PimeInstruction::WithdrawFromVault => 2,
            PimeInstruction::CloseVault => 3,
            PimeInstruction::BookTransfer => 10,
            PimeInstruction::ExecuteTransfer => 11,
            PimeInstruction::UnbookTransfer => 12,
        }
    }

    /// The byte that selects this instruction.
    pub fn discriminator(&self) -> (r: u8)
        ensures
            r == self.spec_discriminator(),
    {
        match self {
            PimeInstruction::CreateVault => 0,
            PimeInstruction::DepositToVault => 1,
            PimeInstruction::WithdrawFromVault => 2,
            PimeInstruction::CloseVault => 3,
            PimeInstruction::BookTransfer => 10,
            PimeInstruction::ExecuteTransfer => 11,
            PimeInstruction::UnbookTransfer => 12,
        }
    }

    /// The instruction a discriminator byte selects.
    pub fn try_from(value: u8) -> (r: Result<Self, PimeError>)
        ensures
            match r {
                Ok(i) => i.spec_discriminator() == value,
                Err(e) => e == PimeError::InvalidInstructionData && !(exists|i: PimeInstruction|
                    i.spec_discriminator() == value),
            },
    {
        match value {
            0 => Ok(PimeInstruction::CreateVault),
            1 => Ok(PimeInstruction::DepositToVault),
            2 => Ok(PimeInstruction::WithdrawFromVault),
            3 => Ok(PimeInstruction::CloseVault),
            10 => Ok(PimeInstruction::BookTransfer),
            11 => Ok(PimeInstruction::ExecuteTransfer),
            12 => Ok(PimeInstruction::UnbookTransfer),
            _ => {
                assert forall|i: PimeInstruction| i.spec_discriminator() != value by {}
                Err(PimeError::InvalidInstructionData)
            },
        }
    }
}

// ---------------------------------------------------------------- CreateVault
#[derive(Debug, Clone, Copy)]
pub struct CreateVaultInstructionData {
    pub index: u64,
    pub timeframe: i64,
    pub max_transactions: u64,
    pub max_lamports: u64,
    pub allows_transfers: bool,
    pub transfer_min_warmup: i64,
    pub transfer_max_window: i64,
}

impl CreateVaultInstructionData {
    pub const PAYLOAD_LEN: usize = 49;

    pub fn new(
        index: u64,
        timeframe: i64,
        max_transactions: u64,
        max_lamports: u64,
        allows_transfers: bool,
        transfer_min_warmup: i64,
        transfer_max_window: i64,
    ) -> (r: Self)
        ensures
            r == (CreateVaultInstructionData {
                index,
                timeframe,
                max_transactions,
                max_lamports,
                allows_transfers,
                transfer_min_warmup,
                transfer_max_window,
            }),
    {
        CreateVaultInstructionData {
            index,
            timeframe,
            max_transactions,
            max_lamports,
            allows_transfers,
            transfer_min_warmup,
            transfer_max_window,
        }
    }

    pub fn index(&self) -> (r: u64)
        ensures
            r == self.index,
    {
        self.index
    }

    pub fn timeframe(&self) -> (r: i64)
        ensures
            r == self.timeframe,
    {
        self.timeframe
    }

    pub fn max_transactions(&self) -> (r: u64)
        ensures
            r == self.max_transactions,
    {
        self.max_transactions
    }

    /// The aggregate amount allowed per window.
    pub fn max_lamports(&self) -> (r: u64)
        ensures
            r == self.max_lamports,
    {
        self.max_lamports
    }

    pub open spec fn payload(&self) -> Seq<u8> {
        spec_u64_to_le_bytes(self.index) + le_i64(self.timeframe) + spec_u64_to_le_bytes(
            self.max_transactions,
        ) + spec_u64_to_le_bytes(self.max_lamports) + seq![flag_byte(self.allows_transfers)]
            + le_i64(self.transfer_min_warmup) + le_i64(self.transfer_max_window)
    }

    /// The whole instruction: discriminator, then payload.
    pub fn to_bytes(&self) -> (r: Vec<u8>)
        ensures
            r@ == seq![0u8] + self.payload(),
    {
        let mut buf: Vec<u8> = Vec::new();
        buf.push(0u8);
        push_u64(&mut buf, self.index);
        push_i64(&mut buf, self.timeframe);
        push_u64(&mut buf, self.max_transactions);
        push_u64(&mut buf, self.max_lamports);
        buf.push(if self.allows_transfers { 1u8 } else { 0u8 });
        push_i64(&mut buf, self.transfer_min_warmup);
        push_i64(&mut buf, self.transfer_max_window);
        assert(buf@ =~= seq![0u8] + self.payload());
        buf
    }

    /// Reads the payload; the flag byte must be 0 or 1.
    pub fn unpack(data: &[u8]) -> (r: Result<Self, PimeError>)
        ensures
            match r {
                Ok(v) => data@.len() >= 49 && data@[32] <= 1 && v.payload() == data@.subrange(0, 49),
                Err(e) => e == PimeError::InvalidInstructionData && (data@.len() < 49 || data@[32]
                    > 1),
            },
    {
        if data.len() < 49 || data[32] > 1 {
            return Err(PimeError::InvalidInstructionData);
        }
        let v = CreateVaultInstructionData {
            index: read_u64(data, 0),
            timeframe: read_i64(data, 8),
            max_transactions: read_u64(data, 16),
            max_lamports: read_u64(data, 24),
            allows_transfers: data[32] == 1,
            transfer_min_warmup: read_i64(data, 33),
            transfer_max_window: read_i64(data, 41),
        };
        proof {
            lemma_le_lengths();
        }
        assert(v.payload() =~= data@.subrange(0, 49));
        Ok(v)
    }
}

// ---------------------------------------------------------------- DepositToVault
#[derive(Debug, Clone, Copy)]
pub struct DepositToVaultInstructionData {
    pub vault_owner: Pubkey,
    pub index: u64,
    pub amount: u64,
}

impl DepositToVaultInstructionData {
    pub const PAYLOAD_LEN: usize = 48;

    pub fn new(vault_owner: Pubkey, index: u64, amount: u64) -> (r: Self)
        ensures
            r == (DepositToVaultInstructionData { vault_owner, index, amount }),
    {
        DepositToVaultInstructionData { vault_owner, index, amount }
    }

    pub fn vault_owner(&self) -> (r: Pubkey)
        ensures
            r == self.vault_owner,
    {
        self.vault_owner
    }

    pub fn index(&self) -> (r: u64)
        ensures
            r == self.index,
    {
        self.index
    }

    pub fn amount(&self) -> (r: u64)
        ensures
            r == self.amount,
    {
        self.amount
    }

    pub open spec fn payload(&self) -> Seq<u8> {
        self.vault_owner@ + spec_u64_to_le_bytes(self.index) + spec_u64_to_le_bytes(self.amount)
    }

    pub fn to_bytes(&self) -> (r: Vec<u8>)
        ensures
            r@ == seq![1u8] + self.payload(),
    {
        let mut buf: Vec<u8> = Vec::new();
        buf.push(1u8);
        push_key(&mut buf, &self.vault_owner);
        push_u64(&mut buf, self.index);
        push_u64(&mut buf, self.amount);
        assert(buf@ =~= seq![1u8] + self.payload());
        buf
    }

    pub fn unpack(data: &[u8]) -> (r: Result<Self, PimeError>)
        ensures
            match r {
                Ok(v) => data@.len() >= 48 && v.payload() == data@.subrange(0, 48),
                Err(e) => e == PimeError::InvalidInstructionData && data@.len() < 48,
            },
    {
        if data.len() < 48 {
            return Err(PimeError::InvalidInstructionData);
        }
        let v = DepositToVaultInstructionData {
            vault_owner: read_key(data, 0),
            index: read_u64(data, 32),
            amount: read_u64(data, 40),
        };
        proof {
            lemma_le_lengths();
        }
        assert(v.payload() =~= data@.subrange(0, 48));
        Ok(v)
    }
}

// ---------------------------------------------------------------- WithdrawFromVault
#[derive(Debug, Clone, Copy)]
pub struct WithdrawFromVaultInstructionData {
    pub vault_index: u64,
    pub amount: u64,
}

impl WithdrawFromVaultInstructionData {
    pub const PAYLOAD_LEN: usize = 16;

    pub fn new(amount: u64, vault_index: u64) -> (r: Self)
        ensures
            r == (WithdrawFromVaultInstructionData { vault_index, amount }),
    {
        WithdrawFromVaultInstructionData { vault_index, amount }
    }

    pub fn vault_index(&self) -> (r: u64)
        ensures
            r == self.vault_index,
    {
        self.vault_index
    }

    pub fn amount(&self) -> (r: u64)
        ensures
            r == self.amount,
    {
        self.amount
    }

    pub open spec fn payload(&self) -> Seq<u8> {
        spec_u64_to_le_bytes(self.vault_index) + spec_u64_to_le_bytes(self.amount)
    }

    pub fn to_bytes(&self) -> (r: Vec<u8>)
        ensures
            r@ == seq![2u8] + self.payload(),
    {
        let mut buf: Vec<u8> = Vec::new();
        buf.push(2u8);
        push_u64(&mut buf, self.vault_index);
        push_u64(&mut buf, self.amount);
        assert(buf@ =~= seq![2u8] + self.payload());
        buf
    }

    pub fn unpack(data: &[u8]) -> (r: Result<Self, PimeError>)
        ensures
            match r {
                Ok(v) => data@.len() >= 16 && v.payload() == data@.subrange(0, 16),
                Err(e) => e == PimeError::InvalidInstructionData && data@.len() < 16,
            },
    {
        if data.len() < 16 {
            return Err(PimeError::InvalidInstructionData);
        }
        let v = WithdrawFromVaultInstructionData {
            vault_index: read_u64(data, 0),
            amount: read_u64(data, 8),
        };
        proof {
            lemma_le_lengths();
        }
        assert(v.payload() =~= data@.subrange(0, 16));
        Ok(v)
    }
}

// ---------------------------------------------------------------- CloseVault
#[derive(Debug, Clone, Copy)]
pub struct CloseVaultInstructionData {
    pub vault_index: u64,
}

impl CloseVaultInstructionData {
    pub const PAYLOAD_LEN: usize = 8;

    pub fn new(vault_index: u64) -> (r: Self)
        ensures
            r.vault_index == vault_index,
    {
        CloseVaultInstructionData { vault_index }
    }

    pub fn vault_index(&self) -> (r: u64)
        ensures
            r == self.vault_index,
    {
        self.vault_index
    }

    pub open spec fn payload(&self) -> Seq<u8> {
        spec_u64_to_le_bytes(self.vault_index)
    }

    pub fn to_bytes(&self) -> (r: Vec<u8>)
        ensures
            r@ == seq![3u8] + self.payload(),
    {
        let mut buf: Vec<u8> = Vec::new();
        buf.push(3u8);
        push_u64(&mut buf, self.vault_index);
        buf
    }

    pub fn unpack(data: &[u8]) -> (r: Result<Self, PimeError>)
        ensures
            match r {
                Ok(v) => data@.len() >= 8 && v.payload() == data@.subrange(0, 8),
                Err(e) => e == PimeError::InvalidInstructionData && data@.len() < 8,
            },
    {
        if data.len() < 8 {
            return Err(PimeError::InvalidInstructionData);
        }
        let v = CloseVaultInstructionData { vault_index: read_u64(data, 0) };
        proof {
            lemma_le_lengths();
        }
        Ok(v)
    }
}

// ---------------------------------------------------------------- BookTransfer
#[derive(Debug, Clone, Copy)]
pub struct BookTransferInstructionData {
    pub amount: u64,
    pub destination: Pubkey,
    pub vault_index: u64,
    pub transfer_index: u64,
    pub warmup: i64,
    pub validity: i64,
}

impl BookTransferInstructionData {
    pub const PAYLOAD_LEN: usize = 72;

    pub fn new(
        amount: u64,
        destination: Pubkey,
        vault_index: u64,
        transfer_index: u64,
        warmup: i64,
        validity: i64,
    ) -> (r: Self)
        ensures
            r == (BookTransferInstructionData {
                amount,
                destination,
                vault_index,
                transfer_index,
                warmup,
                validity,
            }),
    {
        BookTransferInstructionData { amount, destination, vault_index, transfer_index, warmup, validity }
    }

    pub fn amount(&self) -> (r: u64)
        ensures
            r == self.amount,
    {
        self.amount
    }

    pub fn vault_index(&self) -> (r: u64)
        ensures
            r == self.vault_index,
    {
        self.vault_index
    }

    pub fn transfer_index(&self) -> (r: u64)
        ensures
            r == self.transfer_index,
    {
        self.transfer_index
    }

    pub open spec fn payload(&self) -> Seq<u8> {
        spec_u64_to_le_bytes(self.amount) + self.destination@ + spec_u64_to_le_bytes(
            self.vault_index,
        ) + spec_u64_to_le_bytes(self.transfer_index) + le_i64(self.warmup) + le_i64(
            self.validity,
        )
    }

    pub fn to_bytes(&self) -> (r: Vec<u8>)
        ensures
            r@ == seq![10u8] + self.payload(),
    {
        let mut buf: Vec<u8> = Vec::new();
        buf.push(10u8);
        push_u64(&mut buf, self.amount);
        push_key(&mut buf, &self.destination);
        push_u64(&mut buf, self.vault_index);
        push_u64(&mut buf, self.transfer_index);
        push_i64(&mut buf, self.warmup);
        push_i64(&mut buf, self.validity);
        assert(buf@ =~= seq![10u8] + self.payload());
        buf
    }

    pub fn unpack(data: &[u8]) -> (r: Result<Self, PimeError>)
        ensures
            match r {
                Ok(v) => data@.len() >= 72 && v.payload() == data@.subrange(0, 72),
                Err(e) => e == PimeError::InvalidInstructionData && data@.len() < 72,
            },
    {
        if data.len() < 72 {
            return Err(PimeError::InvalidInstructionData);
        }
        let v = BookTransferInstructionData {
            amount: read_u64(data, 0),
            destination: read_key(data, 8),
            vault_index: read_u64(data, 40),
            transfer_index: read_u64(data, 48),
            warmup: read_i64(data, 56),
            validity: read_i64(data, 64),
        };
        proof {
            lemma_le_lengths();
        }
        assert(v.payload() =~= data@.subrange(0, 72));
        Ok(v)
    }
}

// ---------------------------------------------------------------- ExecuteTransfer
#[derive(Debug, Clone, Copy)]
pub struct ExecuteTransferInstructionData {
    pub vault_index: u64,
    pub transfer_index: u64,
}

impl ExecuteTransferInstructionData {
    pub const PAYLOAD_LEN: usize = 16;

    pub fn new(vault_index: u64, transfer_index: u64) -> (r: Self)
        ensures
            r == (ExecuteTransferInstructionData { vault_index, transfer_index }),
    {
        ExecuteTransferInstructionData { vault_index, transfer_index }
    }

    pub fn vault_index(&self) -> (r: u64)
        ensures
            r == self.vault_index,
    {
        self.vault_index
    }

    pub fn transfer_index(&self) -> (r: u64)
        ensures
            r == self.transfer_index,
    {
        self.transfer_index
    }

    pub open spec fn payload(&self) -> Seq<u8> {
        spec_u64_to_le_bytes(self.vault_index) + spec_u64_to_le_bytes(self.transfer_index)
    }

    pub fn to_bytes(&self) -> (r: Vec<u8>)
        ensures
            r@ == seq![11u8] + self.payload(),
    {
        let mut buf: Vec<u8> = Vec::new();
        buf.push(11u8);
        push_u64(&mut buf, self.vault_index);
        push_u64(&mut buf, self.transfer_index);
        assert(buf@ =~= seq![11u8] + self.payload());
        buf
    }

    pub fn unpack(data: &[u8]) -> (r: Result<Self, PimeError>)
        ensures
            match r {
                Ok(v) => data@.len() >= 16 && v.payload() == data@.subrange(0, 16),
                Err(e) => e == PimeError::InvalidInstructionData && data@.len() < 16,
            },
    {
        if data.len() < 16 {
            return Err(PimeError::InvalidInstructionData);
        }
        let v = ExecuteTransferInstructionData {
            vault_index: read_u64(data, 0),
            transfer_index: read_u64(data, 8),
        };
        proof {
            lemma_le_lengths();
        }
        assert(v.payload() =~= data@.subrange(0, 16));
        Ok(v)
    }
}

// ---------------------------------------------------------------- UnbookTransfer
#[derive(Debug, Clone, Copy)]
pub struct UnbookTransferInstructionData {
    pub vault_index: u64,
    pub transfer_index: u64,
    pub destination: Pubkey,
}

impl UnbookTransferInstructionData {
    pub const PAYLOAD_LEN: usize = 48;

    pub fn new(vault_index: u64, transfer_index: u64, destination: Pubkey) -> (r: Self)
        ensures
            r == (UnbookTransferInstructionData { vault_index, transfer_index, destination }),
    {
        UnbookTransferInstructionData { vault_index, transfer_index, destination }
    }

    pub fn vault_index(&self) -> (r: u64)
        ensures
            r == self.vault_index,
    {
        self.vault_index
    }

    pub fn transfer_index(&self) -> (r: u64)
        ensures
            r == self.transfer_index,
    {
        self.transfer_index
    }

    pub open spec fn payload(&self) -> Seq<u8> {
        spec_u64_to_le_bytes(self.vault_index) + spec_u64_to_le_bytes(self.transfer_index)
            + self.destination@
    }

    pub fn to_bytes(&self) -> (r: Vec<u8>)
        ensures
            r@ == seq![12u8] + self.payload(),
    {
        let mut buf: Vec<u8> = Vec::new();
        buf.push(12u8);
        push_u64(&mut buf, self.vault_index);
        push_u64(&mut buf, self.transfer_index);
        push_key(&mut buf, &self.destination);
        assert(buf@ =~= seq![12u8] + self.payload());
        buf
    }

    pub fn unpack(data: &[u8]) -> (r: Result<Self, PimeError>)
        ensures
            match r {
                Ok(v) => data@.len() >= 48 && v.payload() == data@.subrange(0, 48),
                Err(e) => e == PimeError::InvalidInstructionData && data@.len() < 48,
            },
    {
        if data.len() < 48 {
            return Err(PimeError::InvalidInstructionData);
        }
        let v = UnbookTransferInstructionData {
            vault_index: read_u64(data, 0),
            transfer_index: read_u64(data, 8),
            destination: read_key(data, 16),
        };
        proof {
            lemma_le_lengths();
        }
        assert(v.payload() =~= data@.subrange(0, 48));
        Ok(v)
    }
}

} // verus!
