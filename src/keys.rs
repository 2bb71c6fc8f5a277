//! Seed schedules of the program's derived accounts, and their derivation.
use crate::codec::push_key;
use crate::states::{TransferData, VaultData};
use pinocchio::pubkey::Pubkey;
use vstd::bytes::{spec_u64_to_le_bytes, u64_to_le_bytes};
use vstd::prelude::*;

verus! {

/// `b"vault_data"`
pub open spec fn vault_data_seed() -> Seq<u8> {
    seq![118u8, 97, 117, 108, 116, 95, 100, 97, 116, 97]
}

/// `b"vault"`
pub open spec fn vault_seed() -> Seq<u8> {
    seq![118u8, 97, 117, 108, 116]
}

/// `b"transfer"`
pub open spec fn transfer_seed() -> Seq<u8> {
    seq![116u8, 114, 97, 110, 115, 102, 101, 114]
}

/// `b"deposit"`
pub open spec fn deposit_seed() -> Seq<u8> {
    seq![100u8, 101, 112, 111, 115, 105, 116]
}

/// The four kinds of account the program derives.
#[derive(Debug, Clone, Copy, PartialEq, Eq, Structural)]
pub enum SeedKind {
    /// A vault's state record.
    VaultData,
    /// A vault's custody token account.
    Vault,
    /// A booked transfer's record.
    Transfer,
    /// A booked transfer's escrow token account.
    Deposit,
}

/// What an account's key is derived from. Vault accounts ignore
/// `transfer_index` and `destination`.
#[derive(Debug, Clone, Copy)]
pub struct Derivation {
    pub kind: SeedKind,
    pub vault_index: u64,
    pub transfer_index: u64,
    pub authority: Pubkey,
    pub destination: Pubkey,
    pub mint: Pubkey,
    pub token_program: Pubkey,
}

/// A derivation together with the bump seed found for it: the seeds the
/// program signs with.
#[derive(Debug, Clone, Copy)]
pub struct SignerSeeds {
    pub derivation: Derivation,
    pub bump: u8,
}

impl Derivation {
    /// The seeds, in order.
    pub open spec fn spec_seeds(&self) -> Seq<Seq<u8>> {
        match self.kind {
            SeedKind::VaultData => seq![
                vault_data_seed(),
                spec_u64_to_le_bytes(self.vault_index),
                self.authority@,
                self.mint@,
                self.token_program@,
            ],
            SeedKind::Vault => seq![
                vault_seed(),
                spec_u64_to_le_bytes(self.vault_index),
                self.authority@,
                self.mint@,
                self.token_program@,
            ],
            SeedKind::Transfer => seq![
                transfer_seed(),
                spec_u64_to_le_bytes(self.vault_index),
                spec_u64_to_le_bytes(self.transfer_index),
                self.authority@,
                self.destination@,
                self.mint@,
                self.token_program@,
            ],
            SeedKind::Deposit => seq![
                deposit_seed(),
                spec_u64_to_le_bytes(self.vault_index),
                spec_u64_to_le_bytes(self.transfer_index),
                self.authority@,
                self.destination@,
                self.mint@,
                self.token_program@,
            ],
        }
    }

    /// The seeds as byte strings.
    pub fn seeds(&self) -> (r: Vec<Vec<u8>>)
        ensures
            r@.map_values(|v: Vec<u8>| v@) == self.spec_seeds(),
    {
        let mut r: Vec<Vec<u8>> = Vec::new();
        let prefix: Vec<u8> = match self.kind {
            SeedKind::VaultData => vec![118u8, 97, 117, 108, 116, 95, 100, 97, 116, 97],
            SeedKind::Vault => vec![118u8, 97, 117, 108, 116],
            SeedKind::Transfer => vec![116u8, 114, 97, 110, 115, 102, 101, 114],
            SeedKind::Deposit => vec![100u8, 101, 112, 111, 115, 105, 116],
        };
        r.push(prefix);
        r.push(u64_to_le_bytes(self.vault_index));
        match self.kind {
            SeedKind::Transfer | SeedKind::Deposit => {
                r.push(u64_to_le_bytes(self.transfer_index));
            },
            _ => {},
        }
        r.push(key_bytes(&self.authority));
        match self.kind {
            SeedKind::Transfer | SeedKind::Deposit => {
                r.push(key_bytes(&self.destination));
            },
            _ => {},
        }
        r.push(key_bytes(&self.mint));
        r.push(key_bytes(&self.token_program));
        assert(r@.map_values(|v: Vec<u8>| v@) =~= self.spec_seeds());
        r
    }

    /// Derives the account's key and bump under `program_id`; `None` when no
    /// bump gives an address off the curve.
    pub fn find(&self, program_id: &Pubkey) -> (r: Option<(Pubkey, u8)>) {
        let seeds = self.seeds();
        find_program_address(&seeds, program_id)
    }
}

impl SignerSeeds {
    /// The seeds followed by the bump.
    pub open spec fn spec_signer_seeds(&self) -> Seq<Seq<u8>> {
        self.derivation.spec_seeds().push(seq![self.bump])
    }

    pub fn signer_seeds(&self) -> (r: Vec<Vec<u8>>)
        ensures
            r@.map_values(|v: Vec<u8>| v@) == self.spec_signer_seeds(),
    {
        let mut r = self.derivation.seeds();
        let ghost before = r@;
        let mut b: Vec<u8> = Vec::new();
        b.push(self.bump);
        assert(b@ =~= seq![self.bump]);
        r.push(b);
        assert(before.map_values(|v: Vec<u8>| v@) == self.derivation.spec_seeds());
        assert(r@.map_values(|v: Vec<u8>| v@) =~= self.spec_signer_seeds());
        r
    }
}

fn key_bytes(k: &Pubkey) -> (r: Vec<u8>)
    ensures
        r@ == k@,
{
    let mut v: Vec<u8> = Vec::new();
    push_key(&mut v, k);
    assert(v@ =~= k@);
    v
}

/// Relies on `pinocchio::pubkey::pubkey_eq`, which compares the two keys as
/// four eight-byte words: true exactly when all 32 bytes agree.
pub assume_specification[ pinocchio::pubkey::pubkey_eq ](first: &Pubkey, second: &Pubkey) -> (r: bool)
    ensures
        r == (*first == *second),
;

/// Relies on `pinocchio::pubkey::try_find_program_address`, which searches for
/// the bump that puts the derived address off the curve. Off-chain it
/// returns `None`.
#[verifier::external_body]
fn find_program_address(seeds: &Vec<Vec<u8>>, program_id: &Pubkey) -> (r: Option<(Pubkey, u8)>) {
    let refs: Vec<&[u8]> = seeds.iter().map(|s| s.as_slice()).collect();
    pinocchio::pubkey::try_find_program_address(&refs, program_id)
}

impl VaultData {
    /// The key and bump of the state record of vault `index` of `authority`
    /// for `mint` under `token_program`.
    pub fn get_vault_data_pda(
        authority: &Pubkey,
        index: u64,
        mint: &Pubkey,
        token_program: &Pubkey,
        program_id: &Pubkey,
    ) -> (r: Option<(Pubkey, u8)>) {
        let d = Derivation {
            kind: SeedKind::VaultData,
            vault_index: index,
            transfer_index: 0,
            authority: *authority,
            destination: *authority,
            mint: *mint,
            token_program: *token_program,
        };
        d.find(program_id)
    }

    /// The key and bump of the custody of that same vault.
    pub fn get_vault_pda(
        authority: &Pubkey,
        index: u64,
        mint: &Pubkey,
        token_program: &Pubkey,
        program_id: &Pubkey,
    ) -> (r: Option<(Pubkey, u8)>) {
        let d = Derivation {
            kind: SeedKind::Vault,
            vault_index: index,
            transfer_index: 0,
            authority: *authority,
            destination: *authority,
            mint: *mint,
            token_program: *token_program,
        };
        d.find(program_id)
    }
}

impl TransferData {
    /// The key and bump of the record of transfer `transfer_index` from vault
    /// `vault_index` to `destination`.
    pub fn get_transfer_pda(
        authority: &Pubkey,
        destination: &Pubkey,
        vault_index: u64,
        transfer_index: u64,
        mint: &Pubkey,
        token_program: &Pubkey,
        program_id: &Pubkey,
    ) -> (r: Option<(Pubkey, u8)>) {
        let d = Derivation {
            kind: SeedKind::Transfer,
            vault_index,
            transfer_index,
            authority: *authority,
            destination: *destination,
            mint: *mint,
            token_program: *token_program,
        };
        d.find(program_id)
    }

    /// The seeds, bump last, the transfer record signs with.
    pub fn get_transfer_signer_seeds(
        authority: &Pubkey,
        destination: &Pubkey,
        vault_index: u64,
        transfer_index: u64,
        mint: &Pubkey,
        token_program: &Pubkey,
        bump: u8,
    ) -> (r: Vec<Vec<u8>>)
        ensures
            r@.map_values(|v: Vec<u8>| v@) == seq![
                transfer_seed(),
                spec_u64_to_le_bytes(vault_index),
                spec_u64_to_le_bytes(transfer_index),
                authority@,
                destination@,
                mint@,
                token_program@,
                seq![bump],
            ],
    {
        let s = SignerSeeds {
            derivation: Derivation {
                kind: SeedKind::Transfer,
                vault_index,
                transfer_index,
                authority: *authority,
                destination: *destination,
                mint: *mint,
                token_program: *token_program,
            },
            bump,
        };
        let r = s.signer_seeds();
        assert(s.spec_signer_seeds() =~= seq![
            transfer_seed(),
            spec_u64_to_le_bytes(vault_index),
            spec_u64_to_le_bytes(transfer_index),
            authority@,
            destination@,
            mint@,
            token_program@,
            seq![bump],
        ]);
        r
    }

    /// The key and bump of the deposit custody of that same transfer.
    pub fn get_deposit_pda(
        authority: &Pubkey,
        destination: &Pubkey,
        vault_index: u64,
        transfer_index: u64,
        mint: &Pubkey,
        token_program: &Pubkey,
        program_id: &Pubkey,
    ) -> (r: Option<(Pubkey, u8)>) {
        let d = Derivation {
            kind: SeedKind::Deposit,
            vault_index,
            transfer_index,
            authority: *authority,
            destination: *destination,
            mint: *mint,
            token_program: *token_program,
        };
        d.find(program_id)
    }

    /// The seeds, bump last, the deposit custody signs with.
    pub fn get_deposit_signer_seeds(
        authority: &Pubkey,
        destination: &Pubkey,
        vault_index: u64,
        transfer_index: u64,
        mint: &Pubkey,
        token_program: &Pubkey,
        bump: u8,
    ) -> (r: Vec<Vec<u8>>)
        ensures
            r@.map_values(|v: Vec<u8>| v@) == seq![
                deposit_seed(),
                spec_u64_to_le_bytes(vault_index),
                spec_u64_to_le_bytes(transfer_index),
                authority@,
                destination@,
                mint@,
                token_program@,
                seq![bump],
            ],
    {
        let s = SignerSeeds {
            derivation: Derivation {
                kind: SeedKind::Deposit,
                vault_index,
                transfer_index,
                authority: *authority,
                destination: *destination,
                mint: *mint,
                token_program: *token_program,
            },
            bump,
        };
        let r = s.signer_seeds();
        assert(s.spec_signer_seeds() =~= seq![
            deposit_seed(),
            spec_u64_to_le_bytes(vault_index),
            spec_u64_to_le_bytes(transfer_index),
            authority@,
            destination@,
            mint@,
            token_program@,
            seq![bump],
        ]);
        r
    }
}

} // verus!
