//! The persisted records: their fields and their fixed little-endian byte images.
use crate::codec::{flag_byte, le_i64, lemma_le_lengths, push_i64, push_key, push_u64, read_i64, read_key, read_u64};
use crate::errors::PimeError;
use pinocchio::pubkey::Pubkey;
use vstd::bytes::*;
use vstd::prelude::*;

verus! {

/// A record kept as a fixed byte image inside an account.
pub trait Transmutable: Sized {
    /// The bytes that represent the record.
    spec fn image(&self) -> Seq<u8>;

    /// Why `s` does not begin with the image of a record, if it does not.
    spec fn image_error(s: Seq<u8>) -> Option<PimeError>;

    /// The length of every image.
    spec fn spec_len() -> nat;

    /// Every image has the record's length and is accepted by the reader,
    /// and no two records share an image.
    proof fn lemma_image(&self, other: &Self)
        ensures
            self.image().len() == Self::spec_len(),
            Self::image_error(self.image()) is None,
            other.image() == self.image() ==> *other == *self,
    ;

    /// The length of every image.
    fn size() -> (r: usize)
        ensures
            r == Self::spec_len(),
    ;

    /// Writes the record's image.
    fn as_bytes(&self) -> (r: Vec<u8>)
        ensures
            r@ == self.image(),
    ;

    /// Reads the record at the start of `data`; bytes after its image are ignored.
    fn from_bytes(data: &[u8]) -> (r: Result<Self, PimeError>)
        ensures
            match r {
                Ok(v) => Self::image_error(data@) is None && v.image() == data@.subrange(
                    0,
                    v.image().len() as int,
                ),
                Err(e) => Self::image_error(data@) == Some(e),
            },
    ;
}

/// Writes `data` as bytes.
pub fn as_bytes<T: Transmutable>(data: &T) -> (r: Vec<u8>)
    ensures
        r@ == data.image(),
{
    data.as_bytes()
}

/// Reads a `T` from the start of `data`.
pub fn from_bytes<T: Transmutable>(data: &[u8]) -> (r: Result<T, PimeError>)
    ensures
        match r {
            Ok(v) => T::image_error(data@) is None && v.image() == data@.subrange(
                0,
                v.image().len() as int,
            ),
            Err(e) => T::image_error(data@) == Some(e),
        },
{
    T::from_bytes(data)
}

/// Writes `data`'s image into `buf`, which must already have its length.
pub fn serialize<T: Transmutable>(data: &T, buf: &mut Vec<u8>) -> (r: Result<(), PimeError>)
    ensures
        match r {
            Ok(_) => old(buf)@.len() == T::spec_len() && final(buf)@ == data.image(),
            Err(e) => e == PimeError::InvalidAccountData && old(buf)@.len() != T::spec_len()
                && final(buf)@ == old(buf)@,
        },
{
    if buf.len() != T::size() {
        return Err(PimeError::InvalidAccountData);
    }
    *buf = data.as_bytes();
    Ok(())
}

/// Reads a `T` from `data`, which must be exactly one image long.
pub fn deserialize<T: Transmutable>(data: &[u8]) -> (r: Result<T, PimeError>)
    ensures
        match r {
            Ok(v) => v.image() == data@,
            Err(e) => (data@.len() != T::spec_len() && e == PimeError::InvalidAccountData) || (
            data@.len() == T::spec_len() && T::image_error(data@) == Some(e)),
        },
{
    if data.len() != T::size() {
        return Err(PimeError::InvalidAccountData);
    }
    let r = T::from_bytes(data);
    proof {
        if r is Ok {
            let v = r->Ok_0;
            v.lemma_image(&v);
            assert(data@.subrange(0, data@.len() as int) =~= data@);
        }
    }
    r
}

/// What `serialize` writes, `deserialize` reads back as the same record.
pub proof fn lemma_serialize_round_trip<T: Transmutable>(x: T, y: T)
    ensures
        x.image().len() == T::spec_len(),
        T::image_error(x.image()) is None,
        y.image() == x.image() ==> y == x,
{
    x.lemma_image(&y);
}

/// Injectivity of the signed image.
pub proof fn lemma_le_i64_injective(x: i64, y: i64)
    requires
        le_i64(x) == le_i64(y),
    ensures
        x == y,
{
    lemma_auto_spec_u64_to_from_le_bytes();
    assert(spec_u64_from_le_bytes(le_i64(x)) == x as u64);
    assert(spec_u64_from_le_bytes(le_i64(y)) == y as u64);
    assert(x == y) by (bit_vector)
        requires
            x as u64 == y as u64,
    ;
}

/// Injectivity of the unsigned image.
pub proof fn lemma_le_u64_injective(x: u64, y: u64)
    requires
        spec_u64_to_le_bytes(x) == spec_u64_to_le_bytes(y),
    ensures
        x == y,
{
    lemma_auto_spec_u64_to_from_le_bytes();
    assert(spec_u64_from_le_bytes(spec_u64_to_le_bytes(x)) == x);
}

// ---------------------------------------------------------------- VaultHistory
/// One slot of a vault's withdrawal ring: when a withdrawal was recorded and
/// how much it moved. A timestamp of 0 marks an empty slot.
#[derive(Debug, Clone, Copy)]
pub struct VaultHistory {
    pub timestamp: i64,
    pub amount: u64,
}

impl VaultHistory {
    pub const LEN: usize = 16;

    pub fn new(timestamp: i64, amount: u64) -> (r: Self)
        ensures
            r.timestamp == timestamp,
            r.amount == amount,
    {
        VaultHistory { timestamp, amount }
    }

    pub fn timestamp(&self) -> (r: i64)
        ensures
            r == self.timestamp,
    {
        self.timestamp
    }

    pub fn set_timestamp(&mut self, val: i64)
        ensures
            *final(self) == (VaultHistory { timestamp: val, ..*old(self) }),
    {
        self.timestamp = val;
    }

    pub fn amount(&self) -> (r: u64)
        ensures
            r == self.amount,
    {
        self.amount
    }

    pub fn set_amount(&mut self, val: u64)
        ensures
            *final(self) == (VaultHistory { amount: val, ..*old(self) }),
    {
        self.amount = val;
    }
}

impl Transmutable for VaultHistory {
    open spec fn spec_len() -> nat {
        16
    }

    proof fn lemma_image(&self, other: &Self) {
        lemma_vault_history_round_trip(*self, *other);
    }

    fn size() -> (r: usize) {
        16
    }

    open spec fn image(&self) -> Seq<u8> {
        le_i64(self.timestamp) + spec_u64_to_le_bytes(self.amount)
    }

    open spec fn image_error(s: Seq<u8>) -> Option<PimeError> {
        if s.len() < 16 {
            Some(PimeError::AccountDataTooSmall)
        } else {
            None
        }
    }

    fn as_bytes(&self) -> (r: Vec<u8>) {
        let mut buf: Vec<u8> = Vec::new();
        push_i64(&mut buf, self.timestamp);
        push_u64(&mut buf, self.amount);
        buf
    }

    fn from_bytes(data: &[u8]) -> (r: Result<Self, PimeError>) {
        if data.len() < 16 {
            return Err(PimeError::AccountDataTooSmall);
        }
        let timestamp = read_i64(data, 0);
        let amount = read_u64(data, 8);
        proof {
            lemma_le_lengths();
        }
        let v = VaultHistory { timestamp, amount };
        assert(v.image() =~= data@.subrange(0, 16));
        Ok(v)
    }
}

// ---------------------------------------------------------------- VaultData
/// The header of a vault's state account. The account holds this header
/// followed by `max_transactions` [`VaultHistory`] slots.
#[derive(Debug, Clone, Copy)]
pub struct VaultData {
    pub version: u64,
    pub authority: Pubkey,
    /// Length T of the rolling window, in seconds; 0 means no expiry.
    pub timeframe: i64,
    /// Aggregate amount A allowed per window.
    pub max_amount: u64,
    /// Number N of withdrawal slots.
    pub max_transactions: u64,
    pub allows_transfers: bool,
    pub transfer_min_warmup: i64,
    pub transfer_max_window: i64,
    /// Number of transfers booked and not yet executed or unbooked.
    pub open_transfers: u64,
    /// Ring index of the most recently written slot.
    pub transaction_index: u64,
}

impl VaultData {
    pub const DISCRIMINATOR: u8 = 0;

    pub const VERSION: u64 = 1;

    pub const LEN: usize = 98;

    pub fn new(
        authority: Pubkey,
        timeframe: i64,
        max_amount: u64,
        max_transactions: u64,
        allows_transfers: bool,
        transfer_min_warmup: i64,
        transfer_max_window: i64,
    ) -> (r: Self)
        ensures
            r == (VaultData {
                version: 1,
                authority,
                timeframe,
                max_amount,
                max_transactions,
                allows_transfers,
                transfer_min_warmup,
                transfer_max_window,
                open_transfers: 0,
                transaction_index: 0,
            }),
    {
        VaultData {
            version: Self::VERSION,
            authority,
            timeframe,
            max_amount,
            max_transactions,
            allows_transfers,
            transfer_min_warmup,
            transfer_max_window,
            open_transfers: 0,
            transaction_index: 0,
        }
    }

    pub fn version(&self) -> (r: u64)
        ensures
            r == self.version,
    {
        self.version
    }

    pub fn timeframe(&self) -> (r: i64)
        ensures
            r == self.timeframe,
    {
        self.timeframe
    }

    pub fn max_transactions(&self) -> (r: u64)
        ensures
            r == self.max_transactions,
    {
        self.max_transactions
    }

    pub fn max_amount(&self) -> (r: u64)
        ensures
            r == self.max_amount,
    {
        self.max_amount
    }

    pub fn allows_transfers(&self) -> (r: bool)
        ensures
            r == self.allows_transfers,
    {
        self.allows_transfers
    }

    pub fn open_transfers(&self) -> (r: u64)
        ensures
            r == self.open_transfers,
    {
        self.open_transfers
    }

    pub fn transaction_index(&self) -> (r: u64)
        ensures
            r == self.transaction_index,
    {
        self.transaction_index
    }

    pub fn set_transaction_index(&mut self, val: &u64)
        ensures
            *final(self) == (VaultData { transaction_index: *val, ..*old(self) }),
    {
        self.transaction_index = *val;
    }

    pub fn transfer_min_warmup(&self) -> (r: i64)
        ensures
            r == self.transfer_min_warmup,
    {
        self.transfer_min_warmup
    }

    pub fn set_transfer_min_warmup(&mut self, val: &i64)
        ensures
            *final(self) == (VaultData { transfer_min_warmup: *val, ..*old(self) }),
    {
        self.transfer_min_warmup = *val;
    }

    pub fn transfer_max_window(&self) -> (r: i64)
        ensures
            r == self.transfer_max_window,
    {
        self.transfer_max_window
    }

    pub fn set_transfer_max_window(&mut self, val: &i64)
        ensures
            *final(self) == (VaultData { transfer_max_window: *val, ..*old(self) }),
    {
        self.transfer_max_window = *val;
    }

    /// Reads the header at the start of an account's data.
    pub fn from_account_data_bytes(bytes: &[u8]) -> (r: Result<Self, PimeError>)
        ensures
            match r {
                Ok(v) => Self::image_error(bytes@) is None && v.image() == bytes@.subrange(
                    0,
                    98,
                ),
                Err(e) => Self::image_error(bytes@) == Some(e),
            },
    {
        let r = <VaultData as Transmutable>::from_bytes(bytes);
        proof {
            lemma_le_lengths();
            if let Ok(v) = r {
                assert(v.authority@.len() == 32);
            }
        }
        r
    }
}

impl Transmutable for VaultData {
    open spec fn spec_len() -> nat {
        98
    }

    proof fn lemma_image(&self, other: &Self) {
        lemma_vault_data_round_trip(*self, *other);
    }

    fn size() -> (r: usize) {
        98
    }

    open spec fn image(&self) -> Seq<u8> {
        seq![0u8] + spec_u64_to_le_bytes(self.version) + self.authority@ + le_i64(self.timeframe)
            + spec_u64_to_le_bytes(self.max_amount) + spec_u64_to_le_bytes(self.max_transactions)
            + seq![flag_byte(self.allows_transfers)] + le_i64(self.transfer_min_warmup) + le_i64(
            self.transfer_max_window,
        ) + spec_u64_to_le_bytes(self.open_transfers) + spec_u64_to_le_bytes(
            self.transaction_index,
        )
    }

    open spec fn image_error(s: Seq<u8>) -> Option<PimeError> {
        if s.len() < 98 {
            Some(PimeError::AccountDataTooSmall)
        } else if s[0] != 0 || s[65] > 1 {
            Some(PimeError::InvalidAccountData)
        } else {
            None
        }
    }

    fn as_bytes(&self) -> (r: Vec<u8>) {
        let mut buf: Vec<u8> = Vec::new();
        buf.push(Self::DISCRIMINATOR);
        push_u64(&mut buf, self.version);
        push_key(&mut buf, &self.authority);
        push_i64(&mut buf, self.timeframe);
        push_u64(&mut buf, self.max_amount);
        push_u64(&mut buf, self.max_transactions);
        buf.push(if self.allows_transfers { 1u8 } else { 0u8 });
        push_i64(&mut buf, self.transfer_min_warmup);
        push_i64(&mut buf, self.transfer_max_window);
        push_u64(&mut buf, self.open_transfers);
        push_u64(&mut buf, self.transaction_index);
        assert(buf@ =~= self.image());
        buf
    }

    fn from_bytes(data: &[u8]) -> (r: Result<Self, PimeError>) {
        if data.len() < 98 {
            return Err(PimeError::AccountDataTooSmall);
        }
        if data[0] != Self::DISCRIMINATOR || data[65] > 1 {
            return Err(PimeError::InvalidAccountData);
        }
        let version = read_u64(data, 1);
        let authority = read_key(data, 9);
        let timeframe = read_i64(data, 41);
        let max_amount = read_u64(data, 49);
        let max_transactions = read_u64(data, 57);
        let allows_transfers = data[65] == 1;
        let transfer_min_warmup = read_i64(data, 66);
        let transfer_max_window = read_i64(data, 74);
        let open_transfers = read_u64(data, 82);
        let transaction_index = read_u64(data, 90);
        proof {
            lemma_le_lengths();
        }
        let v = VaultData {
            version,
            authority,
            timeframe,
            max_amount,
            max_transactions,
            allows_transfers,
            transfer_min_warmup,
            transfer_max_window,
            open_transfers,
            transaction_index,
        };
        assert(v.image() =~= data@.subrange(0, 98));
        Ok(v)
    }
}

// ---------------------------------------------------------------- TransferData
/// A booked transfer: which vault it came from, where it goes, how much, and
/// the time bounds of its execution.
#[derive(Debug, Clone, Copy)]
pub struct TransferData {
    pub version: u64,
    pub vault_data: Pubkey,
    pub destination: Pubkey,
    pub amount: u64,
    pub created: i64,
    pub created_epoch: u64,
    pub warmup: i64,
    pub validity: i64,
}

impl TransferData {
    pub const DISCRIMINATOR: u8 = 10;

    pub const VERSION: u64 = 1;

    pub const LEN: usize = 113;

    pub fn new(
        vault_data: Pubkey,
        amount: u64,
        destination: Pubkey,
        created: i64,
        created_epoch: u64,
        warmup: i64,
        validity: i64,
    ) -> (r: Self)
        ensures
            r == (TransferData {
                version: 1,
                vault_data,
                destination,
                amount,
                created,
                created_epoch,
                warmup,
                validity,
            }),
    {
        TransferData {
            version: Self::VERSION,
            vault_data,
            destination,
            amount,
            created,
            created_epoch,
            warmup,
            validity,
        }
    }

    pub fn amount(&self) -> (r: u64)
        ensures
            r == self.amount,
    {
        self.amount
    }

    pub fn created(&self) -> (r: i64)
        ensures
            r == self.created,
    {
        self.created
    }

    pub fn created_epoch(&self) -> (r: u64)
        ensures
            r == self.created_epoch,
    {
        self.created_epoch
    }

    pub fn warmup(&self) -> (r: i64)
        ensures
            r == self.warmup,
    {
        self.warmup
    }

    pub fn validity(&self) -> (r: i64)
        ensures
            r == self.validity,
    {
        self.validity
    }
}

impl Transmutable for TransferData {
    open spec fn spec_len() -> nat {
        113
    }

    proof fn lemma_image(&self, other: &Self) {
        lemma_transfer_data_round_trip(*self, *other);
    }

    fn size() -> (r: usize) {
        113
    }

    open spec fn image(&self) -> Seq<u8> {
        seq![10u8] + spec_u64_to_le_bytes(self.version) + self.vault_data@ + self.destination@
            + spec_u64_to_le_bytes(self.amount) + le_i64(self.created) + spec_u64_to_le_bytes(
            self.created_epoch,
        ) + le_i64(self.warmup) + le_i64(self.validity)
    }

    open spec fn image_error(s: Seq<u8>) -> Option<PimeError> {
        if s.len() < 113 {
            Some(PimeError::AccountDataTooSmall)
        } else if s[0] != 10 {
            Some(PimeError::InvalidAccountData)
        } else {
            None
        }
    }

    fn as_bytes(&self) -> (r: Vec<u8>) {
        let mut buf: Vec<u8> = Vec::new();
        buf.push(Self::DISCRIMINATOR);
        push_u64(&mut buf, self.version);
        push_key(&mut buf, &self.vault_data);
        push_key(&mut buf, &self.destination);
        push_u64(&mut buf, self.amount);
        push_i64(&mut buf, self.created);
        push_u64(&mut buf, self.created_epoch);
        push_i64(&mut buf, self.warmup);
        push_i64(&mut buf, self.validity);
        assert(buf@ =~= self.image());
        buf
    }

    fn from_bytes(data: &[u8]) -> (r: Result<Self, PimeError>) {
        if data.len() < 113 {
            return Err(PimeError::AccountDataTooSmall);
        }
        if data[0] != Self::DISCRIMINATOR {
            return Err(PimeError::InvalidAccountData);
        }
        let version = read_u64(data, 1);
        let vault_data = read_key(data, 9);
        let destination = read_key(data, 41);
        let amount = read_u64(data, 73);
        let created = read_i64(data, 81);
        let created_epoch = read_u64(data, 89);
        let warmup = read_i64(data, 97);
        let validity = read_i64(data, 105);
        proof {
            lemma_le_lengths();
        }
        let v = TransferData {
            version,
            vault_data,
            destination,
            amount,
            created,
            created_epoch,
            warmup,
            validity,
        };
        assert(v.image() =~= data@.subrange(0, 113));
        Ok(v)
    }
}

} // verus!

verus! {

/// A history slot written and read back is the same slot, and its image is
/// accepted by the reader.
pub proof fn lemma_vault_history_round_trip(v: VaultHistory, w: VaultHistory)
    ensures
        VaultHistory::image_error(v.image()) is None,
        v.image().len() == 16,
        w.image() == v.image() ==> w == v,
{
    lemma_le_lengths();
    if w.image() == v.image() {
        assert(v.image().subrange(0, 8) =~= le_i64(v.timestamp));
        assert(w.image().subrange(0, 8) =~= le_i64(w.timestamp));
        assert(v.image().subrange(8, 16) =~= spec_u64_to_le_bytes(v.amount));
        assert(w.image().subrange(8, 16) =~= spec_u64_to_le_bytes(w.amount));
        lemma_le_i64_injective(v.timestamp, w.timestamp);
        lemma_le_u64_injective(v.amount, w.amount);
    }
}

/// A vault header written and read back is the same header, and its image is
/// accepted by the reader.
pub proof fn lemma_vault_data_round_trip(v: VaultData, w: VaultData)
    ensures
        VaultData::image_error(v.image()) is None,
        v.image().len() == 98,
        w.image() == v.image() ==> w == v,
{
    broadcast use vstd::array::group_array_axioms;

    lemma_le_lengths();
    let a = v.image();
    let b = w.image();
    assert(a[0] == 0);
    assert(a[65] == flag_byte(v.allows_transfers));
    if b == a {
        assert(a.subrange(1, 9) =~= spec_u64_to_le_bytes(v.version));
        assert(b.subrange(1, 9) =~= spec_u64_to_le_bytes(w.version));
        lemma_le_u64_injective(v.version, w.version);
        assert(a.subrange(9, 41) =~= v.authority@);
        assert(b.subrange(9, 41) =~= w.authority@);
        assert(v.authority == w.authority);
        assert(a.subrange(41, 49) =~= le_i64(v.timeframe));
        assert(b.subrange(41, 49) =~= le_i64(w.timeframe));
        lemma_le_i64_injective(v.timeframe, w.timeframe);
        assert(a.subrange(49, 57) =~= spec_u64_to_le_bytes(v.max_amount));
        assert(b.subrange(49, 57) =~= spec_u64_to_le_bytes(w.max_amount));
        lemma_le_u64_injective(v.max_amount, w.max_amount);
        assert(a.subrange(57, 65) =~= spec_u64_to_le_bytes(v.max_transactions));
        assert(b.subrange(57, 65) =~= spec_u64_to_le_bytes(w.max_transactions));
        lemma_le_u64_injective(v.max_transactions, w.max_transactions);
        assert(b[65] == flag_byte(w.allows_transfers));
        assert(a.subrange(66, 74) =~= le_i64(v.transfer_min_warmup));
        assert(b.subrange(66, 74) =~= le_i64(w.transfer_min_warmup));
        lemma_le_i64_injective(v.transfer_min_warmup, w.transfer_min_warmup);
        assert(a.subrange(74, 82) =~= le_i64(v.transfer_max_window));
        assert(b.subrange(74, 82) =~= le_i64(w.transfer_max_window));
        lemma_le_i64_injective(v.transfer_max_window, w.transfer_max_window);
        assert(a.subrange(82, 90) =~= spec_u64_to_le_bytes(v.open_transfers));
        assert(b.subrange(82, 90) =~= spec_u64_to_le_bytes(w.open_transfers));
        lemma_le_u64_injective(v.open_transfers, w.open_transfers);
        assert(a.subrange(90, 98) =~= spec_u64_to_le_bytes(v.transaction_index));
        assert(b.subrange(90, 98) =~= spec_u64_to_le_bytes(w.transaction_index));
        lemma_le_u64_injective(v.transaction_index, w.transaction_index);
    }
}

/// A transfer record written and read back is the same record, and its image
/// is accepted by the reader.
pub proof fn lemma_transfer_data_round_trip(v: TransferData, w: TransferData)
    ensures
        TransferData::image_error(v.image()) is None,
        v.image().len() == 113,
        w.image() == v.image() ==> w == v,
{
    broadcast use vstd::array::group_array_axioms;

    lemma_le_lengths();
    let a = v.image();
    let b = w.image();
    assert(a[0] == 10);
    if b == a {
        assert(a.subrange(1, 9) =~= spec_u64_to_le_bytes(v.version));
        assert(b.subrange(1, 9) =~= spec_u64_to_le_bytes(w.version));
        lemma_le_u64_injective(v.version, w.version);
        assert(a.subrange(9, 41) =~= v.vault_data@);
        assert(b.subrange(9, 41) =~= w.vault_data@);
        assert(v.vault_data == w.vault_data);
        assert(a.subrange(41, 73) =~= v.destination@);
        assert(b.subrange(41, 73) =~= w.destination@);
        assert(v.destination == w.destination);
        assert(a.subrange(73, 81) =~= spec_u64_to_le_bytes(v.amount));
        assert(b.subrange(73, 81) =~= spec_u64_to_le_bytes(w.amount));
        lemma_le_u64_injective(v.amount, w.amount);
        assert(a.subrange(81, 89) =~= le_i64(v.created));
        assert(b.subrange(81, 89) =~= le_i64(w.created));
        lemma_le_i64_injective(v.created, w.created);
        assert(a.subrange(89, 97) =~= spec_u64_to_le_bytes(v.created_epoch));
        assert(b.subrange(89, 97) =~= spec_u64_to_le_bytes(w.created_epoch));
        lemma_le_u64_injective(v.created_epoch, w.created_epoch);
        assert(a.subrange(97, 105) =~= le_i64(v.warmup));
        assert(b.subrange(97, 105) =~= le_i64(w.warmup));
        lemma_le_i64_injective(v.warmup, w.warmup);
        assert(a.subrange(105, 113) =~= le_i64(v.validity));
        assert(b.subrange(105, 113) =~= le_i64(w.validity));
        lemma_le_i64_injective(v.validity, w.validity);
    }
}

} // verus!
