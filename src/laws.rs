//! What the handlers' actions do to the ledger, and the laws that hold of
//! booking followed by unbooking or by execution.
use crate::errors::PimeError;
use crate::instructions::{BookTransferInstructionData, CloseVaultInstructionData, CreateVaultInstructionData, DepositToVaultInstructionData, ExecuteTransferInstructionData, UnbookTransferInstructionData, WithdrawFromVaultInstructionData};
use crate::processors::vault::{spec_close_vault, spec_create_vault, spec_deposit_to_vault, spec_withdraw_from_vault};
use crate::ledger::{header_of, token_amount_of, transfer_of, Account, Action, DerivedKey, Env};
use crate::states::Transmutable;
use crate::processors::transfer::{spec_book_transfer, spec_execute_transfer, spec_unbook_transfer};
use crate::states::{TransferData, VaultData};
use pinocchio::pubkey::Pubkey;
use vstd::prelude::*;

verus! {

/// The part of the ledger the program's actions touch.
pub struct Ledger {
    /// Accounts that exist (hold lamports).
    pub live: Set<Pubkey>,
    /// Balances of initialised token accounts.
    pub tokens: Map<Pubkey, int>,
    /// Vault headers held in vault state accounts.
    pub vaults: Map<Pubkey, VaultData>,
    /// Transfer records held in transfer accounts.
    pub transfers: Map<Pubkey, TransferData>,
}

/// The ledger after one action, or `None` where the action fails (which
/// aborts the transaction).
pub open spec fn apply_action(l: Ledger, a: Action) -> Option<Ledger> {
    match a {
        Action::CreateAccount { account, .. } => if l.live.contains(account) {
            None
        } else {
            Some(Ledger { live: l.live.insert(account), ..l })
        },
        Action::InitializeTokenAccount { account, .. } => if !l.live.contains(account)
            || l.tokens.contains_key(account) {
            None
        } else {
            Some(Ledger { tokens: l.tokens.insert(account, 0), ..l })
        },
        Action::TokenTransfer { from, to, amount, .. } => if !l.tokens.contains_key(from)
            || !l.tokens.contains_key(to) || l.tokens[from] < amount {
            None
        } else if from == to {
            Some(l)
        } else {
            Some(
                Ledger {
                    tokens: l.tokens.insert(from, l.tokens[from] - amount).insert(
                        to,
                        l.tokens[to] + amount,
                    ),
                    ..l
                },
            )
        },
        Action::CloseTokenAccount { account, .. } => if !l.tokens.contains_key(account)
            || l.tokens[account] != 0 {
            None
        } else {
            Some(Ledger { live: l.live.remove(account), tokens: l.tokens.remove(account), ..l })
        },
        Action::CreateAssociatedTokenAccount { account, .. } => if l.live.contains(account) {
            None
        } else {
            Some(Ledger { live: l.live.insert(account), tokens: l.tokens.insert(account, 0), ..l })
        },
        Action::WriteVaultData { account, data } => Some(
            Ledger { vaults: l.vaults.insert(account, data), ..l },
        ),
        Action::WriteHistory { .. } => Some(l),
        Action::WriteTransferData { account, data } => Some(
            Ledger { transfers: l.transfers.insert(account, data), ..l },
        ),
        Action::CloseProgramAccount { account, .. } => Some(
            Ledger {
                live: l.live.remove(account),
                vaults: l.vaults.remove(account),
                transfers: l.transfers.remove(account),
                ..l
            },
        ),
    }
}

/// The ledger after all of `acts`, in order; `None` if one fails.
pub open spec fn apply_all(l: Ledger, acts: Seq<Action>) -> Option<Ledger>
    decreases acts.len(),
{
    if acts.len() == 0 {
        Some(l)
    } else {
        match apply_action(l, acts[0]) {
            None => None,
            Some(l2) => apply_all(l2, acts.drop_first()),
        }
    }
}

proof fn lemma_apply_concat(l: Ledger, a: Seq<Action>, b: Seq<Action>)
    ensures
        apply_all(l, a + b) == match apply_all(l, a) {
            None => None,
            Some(l2) => apply_all(l2, b),
        },
    decreases a.len(),
{
    if a.len() > 0 {
        assert((a + b).drop_first() =~= a.drop_first() + b);
        assert((a + b)[0] == a[0]);
        match apply_action(l, a[0]) {
            None => {},
            Some(l2) => lemma_apply_concat(l2, a.drop_first(), b),
        }
    } else {
        assert(a + b =~= b);
    }
}

proof fn lemma_apply_one(l: Ledger, a: Action)
    ensures
        apply_all(l, seq![a]) == apply_action(l, a),
{
    assert(seq![a].drop_first() =~= Seq::<Action>::empty());
    match apply_action(l, a) {
        None => {},
        Some(l2) => {
            assert(apply_all(l2, Seq::<Action>::empty()) == Some(l2));
        },
    }
}

/// Booking then unbooking, with nothing in between, returns the vault's
/// custody to its balance before the booking, and leaves neither the deposit
/// custody nor the transfer record in existence.
pub proof fn lemma_book_then_unbook_restores_custody(
    l0: Ledger,
    env: Env,
    book_accounts: Seq<Account>,
    book_args: BookTransferInstructionData,
    keys: (DerivedKey, DerivedKey, DerivedKey, DerivedKey),
    unbook_env: Env,
    unbook_accounts: Seq<Account>,
    unbook_args: UnbookTransferInstructionData,
    unbook_keys: (DerivedKey, DerivedKey, DerivedKey, DerivedKey),
)
    requires
        spec_book_transfer(env, book_accounts, book_args, keys.0, keys.1, keys.2, keys.3) is Ok,
        apply_all(
            l0,
            spec_book_transfer(env, book_accounts, book_args, keys.0, keys.1, keys.2, keys.3)->Ok_0,
        ) is Some,
        spec_unbook_transfer(
            unbook_env,
            unbook_accounts,
            unbook_args,
            unbook_keys.0,
            unbook_keys.1,
            unbook_keys.2,
            unbook_keys.3,
        ) is Ok,
        // The unbooking names the same vault custody, transfer record and deposit custody.
        unbook_accounts[2].key == book_accounts[2].key,
        unbook_accounts[3].key == book_accounts[3].key,
        unbook_accounts[4].key == book_accounts[4].key,
        book_accounts[2].key != book_accounts[4].key,
        // The deposit custody it reads shows the balance the booking left.
        token_amount_of(unbook_accounts[4].data@) == apply_all(
            l0,
            spec_book_transfer(env, book_accounts, book_args, keys.0, keys.1, keys.2, keys.3)->Ok_0,
        )->Some_0.tokens[book_accounts[4].key],
    ensures
        ({
            let l1 = apply_all(
                l0,
                spec_book_transfer(env, book_accounts, book_args, keys.0, keys.1, keys.2, keys.3)->Ok_0,
            )->Some_0;
            let r = apply_all(
                l1,
                spec_unbook_transfer(
                    unbook_env,
                    unbook_accounts,
                    unbook_args,
                    unbook_keys.0,
                    unbook_keys.1,
                    unbook_keys.2,
                    unbook_keys.3,
                )->Ok_0,
            );
            &&& r is Some
            &&& r->Some_0.tokens[book_accounts[2].key] == l0.tokens[book_accounts[2].key]
            &&& !r->Some_0.tokens.contains_key(book_accounts[4].key)
            &&& !r->Some_0.live.contains(book_accounts[4].key)
            &&& !r->Some_0.live.contains(book_accounts[3].key)
            &&& !r->Some_0.transfers.contains_key(book_accounts[3].key)
        }),
{
    let vault = book_accounts[2].key;
    let deposit = book_accounts[4].key;
    let book = spec_book_transfer(env, book_accounts, book_args, keys.0, keys.1, keys.2, keys.3)->Ok_0;
    let unbook = spec_unbook_transfer(
        unbook_env,
        unbook_accounts,
        unbook_args,
        unbook_keys.0,
        unbook_keys.1,
        unbook_keys.2,
        unbook_keys.3,
    )->Ok_0;
    // Book, one action at a time.
    let opening = book.subrange(0, 4);
    let funding = book.subrange(4, 5);
    let recording = book.subrange(5, 6);
    assert(book =~= opening + (funding + recording));
    lemma_apply_concat(l0, opening, funding + recording);
    lemma_book_prefix(l0, opening, book_accounts, vault, deposit);
    let la = apply_all(l0, opening)->Some_0;
    lemma_apply_concat(la, funding, recording);
    lemma_apply_one(la, funding[0]);
    assert(funding =~= seq![funding[0]]);
    let lb = apply_action(la, funding[0])->Some_0;
    assert(recording =~= seq![recording[0]]);
    lemma_apply_one(lb, recording[0]);
    let l1 = apply_all(l0, book)->Some_0;
    assert(l1.tokens =~= lb.tokens);
    assert(l1.tokens[vault] == l0.tokens[vault] - book_args.amount);
    assert(l1.tokens[deposit] == book_args.amount);
    // Unbook, one action at a time.
    let a0 = unbook[0];
    let a1 = unbook[1];
    let a2 = unbook[2];
    let a3 = unbook[3];
    assert(unbook =~= seq![a0] + (seq![a1] + (seq![a2] + seq![a3])));
    lemma_apply_concat(l1, seq![a0], seq![a1] + (seq![a2] + seq![a3]));
    lemma_apply_one(l1, a0);
    let m0 = apply_action(l1, a0)->Some_0;
    lemma_apply_concat(m0, seq![a1], seq![a2] + seq![a3]);
    lemma_apply_one(m0, a1);
    let m1 = apply_action(m0, a1)->Some_0;
    lemma_apply_concat(m1, seq![a2], seq![a3]);
    lemma_apply_one(m1, a2);
    let m2 = apply_action(m1, a2)->Some_0;
    lemma_apply_one(m2, a3);
}

/// The first four actions of a booking: create and fill the transfer
/// record, create and initialise the deposit custody.
proof fn lemma_book_prefix(l0: Ledger, opening: Seq<Action>, book_accounts: Seq<Account>, vault: Pubkey, deposit: Pubkey)
    requires
        apply_all(l0, opening) is Some,
        opening.len() == 4,
        opening[2] matches Action::CreateAccount { account, .. } && account == deposit,
        opening[3] matches Action::InitializeTokenAccount { account, .. } && account == deposit,
        opening[0] matches Action::CreateAccount { .. },
        opening[1] matches Action::WriteTransferData { .. },
        vault != deposit,
    ensures
        apply_all(l0, opening)->Some_0.tokens == l0.tokens.insert(deposit, 0),
        !l0.tokens.contains_key(deposit),
        opening[1] matches Action::WriteTransferData { account, data } ==> apply_all(l0, opening)->Some_0.transfers
            == l0.transfers.insert(account, data),
{
    assert(opening =~= seq![opening[0]] + (seq![opening[1]] + (seq![opening[2]] + seq![opening[3]])));
    lemma_apply_concat(l0, seq![opening[0]], seq![opening[1]] + (seq![opening[2]] + seq![opening[3]]));
    lemma_apply_one(l0, opening[0]);
    let m0 = apply_action(l0, opening[0])->Some_0;
    lemma_apply_concat(m0, seq![opening[1]], seq![opening[2]] + seq![opening[3]]);
    lemma_apply_one(m0, opening[1]);
    let m1 = apply_action(m0, opening[1])->Some_0;
    lemma_apply_concat(m1, seq![opening[2]], seq![opening[3]]);
    lemma_apply_one(m1, opening[2]);
    let m2 = apply_action(m1, opening[2])->Some_0;
    lemma_apply_one(m2, opening[3]);
}

/// Booking then executing delivers the booked amount to the destination,
/// takes it from the vault's custody, and leaves neither the deposit custody
/// nor the transfer record in existence.
pub proof fn lemma_book_then_execute_delivers(
    l0: Ledger,
    env: Env,
    book_accounts: Seq<Account>,
    book_args: BookTransferInstructionData,
    keys: (DerivedKey, DerivedKey, DerivedKey, DerivedKey),
    exec_env: Env,
    exec_accounts: Seq<Account>,
    exec_args: ExecuteTransferInstructionData,
    exec_keys: (DerivedKey, DerivedKey, DerivedKey, DerivedKey),
)
    requires
        spec_book_transfer(env, book_accounts, book_args, keys.0, keys.1, keys.2, keys.3) is Ok,
        apply_all(
            l0,
            spec_book_transfer(env, book_accounts, book_args, keys.0, keys.1, keys.2, keys.3)->Ok_0,
        ) is Some,
        spec_execute_transfer(
            exec_env,
            exec_accounts,
            exec_args,
            exec_keys.0,
            exec_keys.1,
            exec_keys.2,
            exec_keys.3,
        ) is Ok,
        // The execution names the same vault custody, transfer record and deposit custody.
        exec_accounts[2].key == book_accounts[2].key,
        exec_accounts[3].key == book_accounts[3].key,
        exec_accounts[4].key == book_accounts[4].key,
        book_accounts[2].key != book_accounts[4].key,
        exec_accounts[5].key != book_accounts[2].key,
        exec_accounts[5].key != book_accounts[4].key,
        // The accounts it reads show the ledger the booking left.
        ({
            let l1 = apply_all(
                l0,
                spec_book_transfer(env, book_accounts, book_args, keys.0, keys.1, keys.2, keys.3)->Ok_0,
            )->Some_0;
            &&& transfer_of(exec_accounts[3].data@) == l1.transfers[book_accounts[3].key]
            &&& exec_accounts[5].lamports == 0 ==> !l1.live.contains(exec_accounts[5].key)
            &&& exec_accounts[5].lamports != 0 ==> l1.tokens.contains_key(exec_accounts[5].key)
        }),
    ensures
        ({
            let l1 = apply_all(
                l0,
                spec_book_transfer(env, book_accounts, book_args, keys.0, keys.1, keys.2, keys.3)->Ok_0,
            )->Some_0;
            let r = apply_all(
                l1,
                spec_execute_transfer(
                    exec_env,
                    exec_accounts,
                    exec_args,
                    exec_keys.0,
                    exec_keys.1,
                    exec_keys.2,
                    exec_keys.3,
                )->Ok_0,
            );
            let dest = exec_accounts[5].key;
            let before = if exec_accounts[5].lamports == 0 {
                0
            } else {
                l1.tokens[dest]
            };
            &&& r is Some
            &&& r->Some_0.tokens[dest] == before + book_args.amount
            &&& r->Some_0.tokens[book_accounts[2].key] == l0.tokens[book_accounts[2].key]
                - book_args.amount
            &&& !r->Some_0.tokens.contains_key(book_accounts[4].key)
            &&& !r->Some_0.live.contains(book_accounts[4].key)
            &&& !r->Some_0.live.contains(book_accounts[3].key)
            &&& !r->Some_0.transfers.contains_key(book_accounts[3].key)
        }),
{
    let vault = book_accounts[2].key;
    let transfer = book_accounts[3].key;
    let deposit = book_accounts[4].key;
    let dest = exec_accounts[5].key;
    let book = spec_book_transfer(env, book_accounts, book_args, keys.0, keys.1, keys.2, keys.3)->Ok_0;
    let exec = spec_execute_transfer(
        exec_env,
        exec_accounts,
        exec_args,
        exec_keys.0,
        exec_keys.1,
        exec_keys.2,
        exec_keys.3,
    )->Ok_0;
    let opening = book.subrange(0, 4);
    let funding = book.subrange(4, 5);
    let recording = book.subrange(5, 6);
    assert(book =~= opening + (funding + recording));
    lemma_apply_concat(l0, opening, funding + recording);
    lemma_book_prefix(l0, opening, book_accounts, vault, deposit);
    let la = apply_all(l0, opening)->Some_0;
    lemma_apply_concat(la, funding, recording);
    lemma_apply_one(la, funding[0]);
    assert(funding =~= seq![funding[0]]);
    let lb = apply_action(la, funding[0])->Some_0;
    assert(recording =~= seq![recording[0]]);
    lemma_apply_one(lb, recording[0]);
    let l1 = apply_all(l0, book)->Some_0;
    assert(l1.tokens =~= lb.tokens);
    assert(l1.tokens[vault] == l0.tokens[vault] - book_args.amount);
    assert(l1.tokens[deposit] == book_args.amount);
    assert(l1.transfers[transfer].amount == book_args.amount);
    // The settlement, after the destination is created where needed.
    let settle = exec.subrange(exec.len() - 4, exec.len() as int);
    let ls = if exec_accounts[5].lamports == 0 {
        let c = exec.subrange(0, 1);
        assert(exec =~= c + settle);
        lemma_apply_concat(l1, c, settle);
        assert(c =~= seq![c[0]]);
        lemma_apply_one(l1, c[0]);
        apply_action(l1, c[0])->Some_0
    } else {
        assert(exec =~= settle);
        l1
    };
    assert(ls.tokens.contains_key(dest));
    assert(ls.tokens[dest] == (if exec_accounts[5].lamports == 0 {
        0
    } else {
        l1.tokens[dest]
    }));
    assert(ls.tokens[deposit] == book_args.amount);
    assert(ls.tokens[vault] == l1.tokens[vault]);
    let a0 = settle[0];
    let a1 = settle[1];
    let a2 = settle[2];
    let a3 = settle[3];
    assert(settle =~= seq![a0] + (seq![a1] + (seq![a2] + seq![a3])));
    lemma_apply_concat(ls, seq![a0], seq![a1] + (seq![a2] + seq![a3]));
    lemma_apply_one(ls, a0);
    let m0 = apply_action(ls, a0)->Some_0;
    lemma_apply_concat(m0, seq![a1], seq![a2] + seq![a3]);
    lemma_apply_one(m0, a1);
    let m1 = apply_action(m0, a1)->Some_0;
    lemma_apply_concat(m1, seq![a2], seq![a3]);
    lemma_apply_one(m1, a2);
    let m2 = apply_action(m1, a2)->Some_0;
    lemma_apply_one(m2, a3);
}

/// The transfer records in `l` that name vault `v`.
pub open spec fn records_of(l: Ledger, v: Pubkey) -> Set<Pubkey> {
    l.transfers.dom().filter(|k: Pubkey| l.transfers[k].vault_data == v)
}

/// Each vault's open-transfer counter equals the number of live transfer
/// records that name it; records name existing vaults; and vault records,
/// transfer records and token accounts are distinct live accounts.
pub open spec fn counters_hold(l: Ledger) -> bool {
    &&& l.transfers.dom().finite()
    &&& forall|v: Pubkey| #[trigger]
        l.vaults.contains_key(v) ==> l.vaults[v].open_transfers == records_of(l, v).len()
    &&& forall|k: Pubkey| #[trigger]
        l.transfers.contains_key(k) ==> {
            &&& l.vaults.contains_key(l.transfers[k].vault_data)
            &&& l.live.contains(k)
            &&& !l.vaults.contains_key(k)
            &&& !l.tokens.contains_key(k)
        }
    &&& forall|k: Pubkey| #[trigger]
        l.vaults.contains_key(k) ==> l.live.contains(k) && !l.tokens.contains_key(k)
    &&& forall|k: Pubkey| #[trigger] l.tokens.contains_key(k) ==> l.live.contains(k)
}

/// An account snapshot agrees with the ledger: it exists exactly when the
/// ledger has it, and a program-owned record it holds is the ledger's.
pub open spec fn shows(l: Ledger, env: Env, a: Account) -> bool {
    &&& (a.lamports == 0 <==> !l.live.contains(a.key))
    &&& (a.lamports != 0 && a.owner == env.program_id && VaultData::image_error(a.data@) is None)
        ==> l.vaults.contains_key(a.key) && l.vaults[a.key] == header_of(a.data@)
    &&& (a.lamports != 0 && a.owner == env.program_id && TransferData::image_error(a.data@) is None)
        ==> l.transfers.contains_key(a.key) && l.transfers[a.key] == transfer_of(a.data@)
}

pub open spec fn all_show(l: Ledger, env: Env, accounts: Seq<Account>) -> bool {
    forall|i: int| 0 <= i < accounts.len() ==> #[trigger] shows(l, env, accounts[i])
}

/// The empty ledger keeps the counters.
pub proof fn lemma_empty_ledger_counters(l: Ledger)
    requires
        l.transfers == Map::<Pubkey, TransferData>::empty(),
        l.vaults == Map::<Pubkey, VaultData>::empty(),
        l.tokens == Map::<Pubkey, int>::empty(),
    ensures
        counters_hold(l),
{
}

proof fn lemma_records_insert(l: Ledger, l2: Ledger, t: Pubkey, data: TransferData)
    requires
        l.transfers.dom().finite(),
        !l.transfers.contains_key(t),
        l2.transfers == l.transfers.insert(t, data),
    ensures
        records_of(l2, data.vault_data) == records_of(l, data.vault_data).insert(t),
        records_of(l2, data.vault_data).len() == records_of(l, data.vault_data).len() + 1,
        forall|v: Pubkey| v != data.vault_data ==> #[trigger] records_of(l2, v) == records_of(l, v),
{
    assert(records_of(l2, data.vault_data) =~= records_of(l, data.vault_data).insert(t));
    assert forall|v: Pubkey| v != data.vault_data implies #[trigger] records_of(l2, v) == records_of(l, v) by {
        assert(records_of(l2, v) =~= records_of(l, v));
    }
    assert(!records_of(l, data.vault_data).contains(t));
    l.transfers.dom().lemma_len_filter(|k: Pubkey| l.transfers[k].vault_data == data.vault_data);
}

proof fn lemma_records_remove(l: Ledger, l2: Ledger, t: Pubkey)
    requires
        l.transfers.dom().finite(),
        l.transfers.contains_key(t),
        l2.transfers == l.transfers.remove(t),
    ensures
        records_of(l2, l.transfers[t].vault_data) == records_of(l, l.transfers[t].vault_data).remove(t),
        records_of(l2, l.transfers[t].vault_data).len() + 1 == records_of(l, l.transfers[t].vault_data).len(),
        forall|v: Pubkey| v != l.transfers[t].vault_data ==> #[trigger] records_of(l2, v) == records_of(l, v),
{
    let w = l.transfers[t].vault_data;
    assert(records_of(l2, w) =~= records_of(l, w).remove(t));
    assert forall|v: Pubkey| v != w implies #[trigger] records_of(l2, v) == records_of(l, v) by {
        assert(records_of(l2, v) =~= records_of(l, v));
    }
    l.transfers.dom().lemma_len_filter(|k: Pubkey| l.transfers[k].vault_data == w);
}

/// Booking keeps the counters.
pub proof fn lemma_book_keeps_counters(
    l: Ledger,
    env: Env,
    accounts: Seq<Account>,
    args: BookTransferInstructionData,
    keys: (DerivedKey, DerivedKey, DerivedKey, DerivedKey),
)
    requires
        counters_hold(l),
        all_show(l, env, accounts),
        spec_book_transfer(env, accounts, args, keys.0, keys.1, keys.2, keys.3) is Ok,
        apply_all(l, spec_book_transfer(env, accounts, args, keys.0, keys.1, keys.2, keys.3)->Ok_0) is Some,
    ensures
        counters_hold(
            apply_all(l, spec_book_transfer(env, accounts, args, keys.0, keys.1, keys.2, keys.3)->Ok_0)->Some_0,
        ),
{
    let acts = spec_book_transfer(env, accounts, args, keys.0, keys.1, keys.2, keys.3)->Ok_0;
    let vd = accounts[1].key;
    let t = accounts[3].key;
    let d = accounts[4].key;
    assert(shows(l, env, accounts[1]));
    assert(shows(l, env, accounts[3]));
    assert(shows(l, env, accounts[4]));
    let h = l.vaults[vd];
    let m1 = apply_action(l, acts[0])->Some_0;
    let r1 = acts.drop_first();
    let m2 = apply_action(m1, r1[0])->Some_0;
    let r2 = r1.drop_first();
    let m3 = apply_action(m2, r2[0])->Some_0;
    let r3 = r2.drop_first();
    let m4 = apply_action(m3, r3[0])->Some_0;
    let r4 = r3.drop_first();
    let m5 = apply_action(m4, r4[0])->Some_0;
    let r5 = r4.drop_first();
    let m6 = apply_action(m5, r5[0])->Some_0;
    let r6 = r5.drop_first();
    assert(r6.len() == 0);
    assert(apply_all(l, acts) == apply_all(m1, r1));
    assert(apply_all(m1, r1) == apply_all(m2, r2));
    assert(apply_all(m2, r2) == apply_all(m3, r3));
    assert(apply_all(m3, r3) == apply_all(m4, r4));
    assert(apply_all(m4, r4) == apply_all(m5, r5));
    assert(apply_all(m5, r5) == apply_all(m6, r6));
    let l2 = apply_all(l, acts)->Some_0;
    assert(l2 == m6);
    let td = TransferData {
        version: 1,
        vault_data: vd,
        destination: args.destination,
        amount: args.amount,
        created: env.now,
        created_epoch: env.epoch,
        warmup: args.warmup,
        validity: args.validity,
    };
    assert(l2.transfers == l.transfers.insert(t, td));
    assert(l2.vaults == l.vaults.insert(vd, VaultData { open_transfers: (h.open_transfers + 1) as u64, ..h }));
    assert(l2.live == l.live.insert(t).insert(d));
    assert(l2.tokens.dom() == l.tokens.dom().insert(d));
    lemma_records_insert(l, l2, t, td);
    assert forall|k: Pubkey| #[trigger] l2.transfers.contains_key(k) implies {
        &&& l2.vaults.contains_key(l2.transfers[k].vault_data)
        &&& l2.live.contains(k)
        &&& !l2.vaults.contains_key(k)
        &&& !l2.tokens.contains_key(k)
    } by {
        if k != t {
            assert(l.transfers.contains_key(k));
        }
    }
    assert forall|v: Pubkey| #[trigger] l2.vaults.contains_key(v) implies l2.vaults[v].open_transfers
        == records_of(l2, v).len() by {
        if v != vd {
            assert(l.vaults.contains_key(v));
        }
    }
    assert forall|k: Pubkey| #[trigger] l2.vaults.contains_key(k) implies l2.live.contains(k)
        && !l2.tokens.contains_key(k) by {
        if k != vd {
            assert(l.vaults.contains_key(k));
        }
    }
    assert forall|k: Pubkey| #[trigger] l2.tokens.contains_key(k) implies l2.live.contains(k) by {
        if k != d {
            assert(l.tokens.contains_key(k));
        }
    }
}

/// Executing a booked transfer keeps the counters.
pub proof fn lemma_execute_keeps_counters(
    l: Ledger,
    env: Env,
    accounts: Seq<Account>,
    args: ExecuteTransferInstructionData,
    keys: (DerivedKey, DerivedKey, DerivedKey, DerivedKey),
)
    requires
        counters_hold(l),
        all_show(l, env, accounts),
        spec_execute_transfer(env, accounts, args, keys.0, keys.1, keys.2, keys.3) is Ok,
        apply_all(l, spec_execute_transfer(env, accounts, args, keys.0, keys.1, keys.2, keys.3)->Ok_0) is Some,
    ensures
        counters_hold(
            apply_all(l, spec_execute_transfer(env, accounts, args, keys.0, keys.1, keys.2, keys.3)->Ok_0)->Some_0,
        ),
{
    let acts = spec_execute_transfer(env, accounts, args, keys.0, keys.1, keys.2, keys.3)->Ok_0;
    let vd = accounts[1].key;
    let t = accounts[3].key;
    let d = accounts[4].key;
    let dest = accounts[5].key;
    assert(shows(l, env, accounts[1]));
    assert(shows(l, env, accounts[3]));
    assert(shows(l, env, accounts[4]));
    assert(shows(l, env, accounts[5]));
    let h = l.vaults[vd];
    assert(l.transfers.contains_key(t));
    assert(l.transfers[t].vault_data == vd);
    let l2 = apply_all(l, acts)->Some_0;
    if accounts[5].lamports == 0 {
    let m1 = apply_action(l, acts[0])->Some_0;
    let r1 = acts.drop_first();
    assert(apply_all(l, acts) == apply_all(m1, r1));
    let m2 = apply_action(m1, r1[0])->Some_0;
    let r2 = r1.drop_first();
    assert(apply_all(m1, r1) == apply_all(m2, r2));
    let m3 = apply_action(m2, r2[0])->Some_0;
    let r3 = r2.drop_first();
    assert(apply_all(m2, r2) == apply_all(m3, r3));
    let m4 = apply_action(m3, r3[0])->Some_0;
    let r4 = r3.drop_first();
    assert(apply_all(m3, r3) == apply_all(m4, r4));
    let m5 = apply_action(m4, r4[0])->Some_0;
    let r5 = r4.drop_first();
    assert(apply_all(m4, r4) == apply_all(m5, r5));
    assert(r5.len() == 0);
    assert(apply_all(l, acts) == Some(m5));
        assert(l2.tokens.dom() =~= l.tokens.dom().insert(dest).remove(d));
        assert(l2.live =~= l.live.insert(dest).remove(d).remove(t));
    } else {
    let m1 = apply_action(l, acts[0])->Some_0;
    let r1 = acts.drop_first();
    assert(apply_all(l, acts) == apply_all(m1, r1));
    let m2 = apply_action(m1, r1[0])->Some_0;
    let r2 = r1.drop_first();
    assert(apply_all(m1, r1) == apply_all(m2, r2));
    let m3 = apply_action(m2, r2[0])->Some_0;
    let r3 = r2.drop_first();
    assert(apply_all(m2, r2) == apply_all(m3, r3));
    let m4 = apply_action(m3, r3[0])->Some_0;
    let r4 = r3.drop_first();
    assert(apply_all(m3, r3) == apply_all(m4, r4));
    assert(r4.len() == 0);
    assert(apply_all(l, acts) == Some(m4));
        assert(l2.tokens.dom() =~= l.tokens.dom().remove(d));
        assert(l2.live =~= l.live.remove(d).remove(t));
    }
    assert(l2.transfers =~= l.transfers.remove(t));
    assert(l2.vaults =~= l.vaults.insert(vd, VaultData { open_transfers: (h.open_transfers - 1) as u64, ..h }));
    lemma_records_remove(l, l2, t);
    assert forall|k: Pubkey| #[trigger] l2.transfers.contains_key(k) implies {
        &&& l2.vaults.contains_key(l2.transfers[k].vault_data)
        &&& l2.live.contains(k)
        &&& !l2.vaults.contains_key(k)
        &&& !l2.tokens.contains_key(k)
    } by {
        assert(l.transfers.contains_key(k));
    }
    assert forall|v: Pubkey| #[trigger] l2.vaults.contains_key(v) implies l2.vaults[v].open_transfers
        == records_of(l2, v).len() by {
        if v != vd {
            assert(l.vaults.contains_key(v));
        }
    }
    assert forall|k: Pubkey| #[trigger] l2.vaults.contains_key(k) implies l2.live.contains(k)
        && !l2.tokens.contains_key(k) by {
        assert(l.vaults.contains_key(k));
    }
    assert forall|k: Pubkey| #[trigger] l2.tokens.contains_key(k) implies l2.live.contains(k) by {
    }
}

/// Unbooking a transfer keeps the counters.
pub proof fn lemma_unbook_keeps_counters(
    l: Ledger,
    env: Env,
    accounts: Seq<Account>,
    args: UnbookTransferInstructionData,
    keys: (DerivedKey, DerivedKey, DerivedKey, DerivedKey),
)
    requires
        counters_hold(l),
        all_show(l, env, accounts),
        spec_unbook_transfer(env, accounts, args, keys.0, keys.1, keys.2, keys.3) is Ok,
        apply_all(l, spec_unbook_transfer(env, accounts, args, keys.0, keys.1, keys.2, keys.3)->Ok_0) is Some,
    ensures
        counters_hold(
            apply_all(l, spec_unbook_transfer(env, accounts, args, keys.0, keys.1, keys.2, keys.3)->Ok_0)->Some_0,
        ),
{
    let acts = spec_unbook_transfer(env, accounts, args, keys.0, keys.1, keys.2, keys.3)->Ok_0;
    let vd = accounts[1].key;
    let t = accounts[3].key;
    let d = accounts[4].key;
    assert(shows(l, env, accounts[1]));
    assert(shows(l, env, accounts[3]));
    assert(shows(l, env, accounts[4]));
    let h = l.vaults[vd];
    assert(l.transfers.contains_key(t));
    assert(l.transfers[t].vault_data == vd);
    let l2 = apply_all(l, acts)->Some_0;
    let m1 = apply_action(l, acts[0])->Some_0;
    let r1 = acts.drop_first();
    assert(apply_all(l, acts) == apply_all(m1, r1));
    let m2 = apply_action(m1, r1[0])->Some_0;
    let r2 = r1.drop_first();
    assert(apply_all(m1, r1) == apply_all(m2, r2));
    let m3 = apply_action(m2, r2[0])->Some_0;
    let r3 = r2.drop_first();
    assert(apply_all(m2, r2) == apply_all(m3, r3));
    let m4 = apply_action(m3, r3[0])->Some_0;
    let r4 = r3.drop_first();
    assert(apply_all(m3, r3) == apply_all(m4, r4));
    assert(r4.len() == 0);
    assert(apply_all(l, acts) == Some(m4));
    assert(l2.tokens.dom() =~= l.tokens.dom().remove(d));
    assert(l2.live =~= l.live.remove(d).remove(t));
    assert(l2.transfers =~= l.transfers.remove(t));
    assert(l2.vaults =~= l.vaults.insert(vd, VaultData { open_transfers: (h.open_transfers - 1) as u64, ..h }));
    lemma_records_remove(l, l2, t);
    assert forall|k: Pubkey| #[trigger] l2.transfers.contains_key(k) implies {
        &&& l2.vaults.contains_key(l2.transfers[k].vault_data)
        &&& l2.live.contains(k)
        &&& !l2.vaults.contains_key(k)
        &&& !l2.tokens.contains_key(k)
    } by {
        assert(l.transfers.contains_key(k));
    }
    assert forall|v: Pubkey| #[trigger] l2.vaults.contains_key(v) implies l2.vaults[v].open_transfers
        == records_of(l2, v).len() by {
        if v != vd {
            assert(l.vaults.contains_key(v));
        }
    }
    assert forall|k: Pubkey| #[trigger] l2.vaults.contains_key(k) implies l2.live.contains(k)
        && !l2.tokens.contains_key(k) by {
        assert(l.vaults.contains_key(k));
    }
    assert forall|k: Pubkey| #[trigger] l2.tokens.contains_key(k) implies l2.live.contains(k) by {
    }
}

/// A withdrawal keeps the counters.
pub proof fn lemma_withdraw_keeps_counters(
    l: Ledger,
    env: Env,
    accounts: Seq<Account>,
    args: WithdrawFromVaultInstructionData,
    keys: (DerivedKey, DerivedKey),
)
    requires
        counters_hold(l),
        all_show(l, env, accounts),
        spec_withdraw_from_vault(env, accounts, args, keys.0, keys.1) is Ok,
        apply_all(l, spec_withdraw_from_vault(env, accounts, args, keys.0, keys.1)->Ok_0) is Some,
    ensures
        counters_hold(apply_all(l, spec_withdraw_from_vault(env, accounts, args, keys.0, keys.1)->Ok_0)->Some_0),
{
    let acts = spec_withdraw_from_vault(env, accounts, args, keys.0, keys.1)->Ok_0;
    let l2 = apply_all(l, acts)->Some_0;
    let vd = accounts[1].key;
    assert(shows(l, env, accounts[1]));
    let h = l.vaults[vd];
    let m1 = apply_action(l, acts[0])->Some_0;
    let r1 = acts.drop_first();
    assert(apply_all(l, acts) == apply_all(m1, r1));
    let m2 = apply_action(m1, r1[0])->Some_0;
    let r2 = r1.drop_first();
    assert(apply_all(m1, r1) == apply_all(m2, r2));
    let m3 = apply_action(m2, r2[0])->Some_0;
    let r3 = r2.drop_first();
    assert(apply_all(m2, r2) == apply_all(m3, r3));
    assert(r3.len() == 0);
    assert(apply_all(l, acts) == Some(m3));
    assert(l2.tokens.dom() =~= l.tokens.dom());
    assert(l2.transfers == l.transfers);
    assert(l2.live == l.live);
    assert(l2.vaults =~= l.vaults.insert(vd, VaultData { transaction_index: l2.vaults[vd].transaction_index, ..h }));
    assert forall|v: Pubkey| #[trigger] records_of(l2, v) == records_of(l, v) by {}
    assert forall|k: Pubkey| #[trigger] l2.transfers.contains_key(k) implies {
        &&& l2.vaults.contains_key(l2.transfers[k].vault_data)
        &&& l2.live.contains(k)
        &&& !l2.vaults.contains_key(k)
        &&& !l2.tokens.contains_key(k)
    } by {
        assert(l.transfers.contains_key(k));
    }
    assert forall|v: Pubkey| #[trigger] l2.vaults.contains_key(v) implies l2.vaults[v].open_transfers
        == records_of(l2, v).len() by {
        if v != vd {
            assert(l.vaults.contains_key(v));
        }
    }
    assert forall|k: Pubkey| #[trigger] l2.vaults.contains_key(k) implies l2.live.contains(k)
        && !l2.tokens.contains_key(k) by {
        if k != vd {
            assert(l.vaults.contains_key(k));
        }
    }
    assert forall|k: Pubkey| #[trigger] l2.tokens.contains_key(k) implies l2.live.contains(k) by {
        if l.tokens.contains_key(k) {
        }
    }
}

/// A deposit keeps the counters.
pub proof fn lemma_deposit_keeps_counters(
    l: Ledger,
    env: Env,
    accounts: Seq<Account>,
    args: DepositToVaultInstructionData,
    keys: DerivedKey,
)
    requires
        counters_hold(l),
        all_show(l, env, accounts),
        spec_deposit_to_vault(env, accounts, args, keys) is Ok,
        apply_all(l, spec_deposit_to_vault(env, accounts, args, keys)->Ok_0) is Some,
    ensures
        counters_hold(apply_all(l, spec_deposit_to_vault(env, accounts, args, keys)->Ok_0)->Some_0),
{
    let acts = spec_deposit_to_vault(env, accounts, args, keys)->Ok_0;
    let l2 = apply_all(l, acts)->Some_0;
    let vd = accounts[2].key;
    let v = accounts[2].key;
    assert(shows(l, env, accounts[2]));
    if accounts[2].lamports == 0 {
        let m1 = apply_action(l, acts[0])->Some_0;
        let r1 = acts.drop_first();
        assert(apply_all(l, acts) == apply_all(m1, r1));
        let m2 = apply_action(m1, r1[0])->Some_0;
        let r2 = r1.drop_first();
        assert(apply_all(m1, r1) == apply_all(m2, r2));
        let m3 = apply_action(m2, r2[0])->Some_0;
        let r3 = r2.drop_first();
        assert(apply_all(m2, r2) == apply_all(m3, r3));
        assert(r3.len() == 0);
        assert(apply_all(l, acts) == Some(m3));
        assert(l2.tokens.dom() =~= l.tokens.dom().insert(v));
        assert(l2.live =~= l.live.insert(v));
    } else {
        let m1 = apply_action(l, acts[0])->Some_0;
        let r1 = acts.drop_first();
        assert(apply_all(l, acts) == apply_all(m1, r1));
        assert(r1.len() == 0);
        assert(apply_all(l, acts) == Some(m1));
        assert(l2.tokens.dom() =~= l.tokens.dom());
        assert(l2.live =~= l.live);
    }
    assert(l2.transfers == l.transfers);
    assert(l2.vaults == l.vaults);
    assert forall|w: Pubkey| #[trigger] records_of(l2, w) == records_of(l, w) by {}
    assert forall|k: Pubkey| #[trigger] l2.transfers.contains_key(k) implies {
        &&& l2.vaults.contains_key(l2.transfers[k].vault_data)
        &&& l2.live.contains(k)
        &&& !l2.vaults.contains_key(k)
        &&& !l2.tokens.contains_key(k)
    } by {
        assert(l.transfers.contains_key(k));
    }
    assert forall|v: Pubkey| #[trigger] l2.vaults.contains_key(v) implies l2.vaults[v].open_transfers
        == records_of(l2, v).len() by {
        if v != vd {
            assert(l.vaults.contains_key(v));
        }
    }
    assert forall|k: Pubkey| #[trigger] l2.vaults.contains_key(k) implies l2.live.contains(k)
        && !l2.tokens.contains_key(k) by {
        if k != vd {
            assert(l.vaults.contains_key(k));
        }
    }
    assert forall|k: Pubkey| #[trigger] l2.tokens.contains_key(k) implies l2.live.contains(k) by {
        if l.tokens.contains_key(k) {
        }
    }
}

/// Creating a vault keeps the counters.
pub proof fn lemma_create_keeps_counters(
    l: Ledger,
    env: Env,
    accounts: Seq<Account>,
    args: CreateVaultInstructionData,
    keys: (DerivedKey, DerivedKey),
)
    requires
        counters_hold(l),
        all_show(l, env, accounts),
        spec_create_vault(env, accounts, args, keys.0, keys.1) is Ok,
        apply_all(l, spec_create_vault(env, accounts, args, keys.0, keys.1)->Ok_0) is Some,
    ensures
        counters_hold(apply_all(l, spec_create_vault(env, accounts, args, keys.0, keys.1)->Ok_0)->Some_0),
{
    let acts = spec_create_vault(env, accounts, args, keys.0, keys.1)->Ok_0;
    let l2 = apply_all(l, acts)->Some_0;
    let vd = accounts[1].key;
    let v = accounts[2].key;
    assert(shows(l, env, accounts[1]));
    assert(shows(l, env, accounts[2]));
    assert(!l.live.contains(vd));
    if accounts[2].lamports == 0 {
        let m1 = apply_action(l, acts[0])->Some_0;
        let r1 = acts.drop_first();
        assert(apply_all(l, acts) == apply_all(m1, r1));
        let m2 = apply_action(m1, r1[0])->Some_0;
        let r2 = r1.drop_first();
        assert(apply_all(m1, r1) == apply_all(m2, r2));
        let m3 = apply_action(m2, r2[0])->Some_0;
        let r3 = r2.drop_first();
        assert(apply_all(m2, r2) == apply_all(m3, r3));
        let m4 = apply_action(m3, r3[0])->Some_0;
        let r4 = r3.drop_first();
        assert(apply_all(m3, r3) == apply_all(m4, r4));
        assert(r4.len() == 0);
        assert(apply_all(l, acts) == Some(m4));
        assert(l2.tokens.dom() =~= l.tokens.dom().insert(v));
        assert(l2.live =~= l.live.insert(vd).insert(v));
    } else {
        let m1 = apply_action(l, acts[0])->Some_0;
        let r1 = acts.drop_first();
        assert(apply_all(l, acts) == apply_all(m1, r1));
        let m2 = apply_action(m1, r1[0])->Some_0;
        let r2 = r1.drop_first();
        assert(apply_all(m1, r1) == apply_all(m2, r2));
        assert(r2.len() == 0);
        assert(apply_all(l, acts) == Some(m2));
        assert(l2.tokens.dom() =~= l.tokens.dom());
        assert(l2.live =~= l.live.insert(vd));
    }
    assert(l2.transfers == l.transfers);
    assert(l2.vaults == l.vaults.insert(vd, l2.vaults[vd]));
    assert(l2.vaults[vd].open_transfers == 0);
    assert forall|w: Pubkey| #[trigger] records_of(l2, w) == records_of(l, w) by {}
    assert(records_of(l, vd) =~= Set::<Pubkey>::empty());
    assert forall|k: Pubkey| #[trigger] l2.transfers.contains_key(k) implies {
        &&& l2.vaults.contains_key(l2.transfers[k].vault_data)
        &&& l2.live.contains(k)
        &&& !l2.vaults.contains_key(k)
        &&& !l2.tokens.contains_key(k)
    } by {
        assert(l.transfers.contains_key(k));
    }
    assert forall|v: Pubkey| #[trigger] l2.vaults.contains_key(v) implies l2.vaults[v].open_transfers
        == records_of(l2, v).len() by {
        if v != vd {
            assert(l.vaults.contains_key(v));
        }
    }
    assert forall|k: Pubkey| #[trigger] l2.vaults.contains_key(k) implies l2.live.contains(k)
        && !l2.tokens.contains_key(k) by {
        if k != vd {
            assert(l.vaults.contains_key(k));
        }
    }
    assert forall|k: Pubkey| #[trigger] l2.tokens.contains_key(k) implies l2.live.contains(k) by {
        if l.tokens.contains_key(k) {
        }
    }
}

/// Closing a vault keeps the counters.
pub proof fn lemma_close_keeps_counters(
    l: Ledger,
    env: Env,
    accounts: Seq<Account>,
    args: CloseVaultInstructionData,
    keys: (DerivedKey, DerivedKey),
)
    requires
        counters_hold(l),
        all_show(l, env, accounts),
        spec_close_vault(env, accounts, args, keys.0, keys.1) is Ok,
        apply_all(l, spec_close_vault(env, accounts, args, keys.0, keys.1)->Ok_0) is Some,
    ensures
        counters_hold(apply_all(l, spec_close_vault(env, accounts, args, keys.0, keys.1)->Ok_0)->Some_0),
{
    let acts = spec_close_vault(env, accounts, args, keys.0, keys.1)->Ok_0;
    let l2 = apply_all(l, acts)->Some_0;
    let vd = accounts[1].key;
    let v = accounts[2].key;
    assert(shows(l, env, accounts[1]));
    assert(shows(l, env, accounts[2]));
    let h = l.vaults[vd];
    l.transfers.dom().lemma_len_filter(|k: Pubkey| l.transfers[k].vault_data == vd);
    records_of(l, vd).lemma_len0_is_empty();
    let m1 = apply_action(l, acts[0])->Some_0;
    let r1 = acts.drop_first();
    assert(apply_all(l, acts) == apply_all(m1, r1));
    let m2 = apply_action(m1, r1[0])->Some_0;
    let r2 = r1.drop_first();
    assert(apply_all(m1, r1) == apply_all(m2, r2));
    assert(r2.len() == 0);
    assert(apply_all(l, acts) == Some(m2));
    assert(!l.transfers.contains_key(vd));
    assert(l2.transfers =~= l.transfers);
    assert(l2.vaults =~= l.vaults.remove(vd));
    assert(l2.tokens.dom() =~= l.tokens.dom().remove(v));
    assert(l2.live =~= l.live.remove(v).remove(vd));
    assert forall|w: Pubkey| #[trigger] records_of(l2, w) == records_of(l, w) by {}
    assert forall|k: Pubkey| #[trigger] l.transfers.contains_key(k) implies l.transfers[k].vault_data != vd by {
        if l.transfers[k].vault_data == vd {
            assert(records_of(l, vd).contains(k));
        }
    }
    assert forall|k: Pubkey| #[trigger] l2.transfers.contains_key(k) implies {
        &&& l2.vaults.contains_key(l2.transfers[k].vault_data)
        &&& l2.live.contains(k)
        &&& !l2.vaults.contains_key(k)
        &&& !l2.tokens.contains_key(k)
    } by {
        assert(l.transfers.contains_key(k));
    }
    assert forall|v: Pubkey| #[trigger] l2.vaults.contains_key(v) implies l2.vaults[v].open_transfers
        == records_of(l2, v).len() by {
        if v != vd {
            assert(l.vaults.contains_key(v));
        }
    }
    assert forall|k: Pubkey| #[trigger] l2.vaults.contains_key(k) implies l2.live.contains(k)
        && !l2.tokens.contains_key(k) by {
        if k != vd {
            assert(l.vaults.contains_key(k));
        }
    }
    assert forall|k: Pubkey| #[trigger] l2.tokens.contains_key(k) implies l2.live.contains(k) by {
        if l.tokens.contains_key(k) {
        }
    }
}

/// One instruction with the keys derived for it.
pub enum Step {
    CreateVault(CreateVaultInstructionData, DerivedKey, DerivedKey),
    DepositToVault(DepositToVaultInstructionData, DerivedKey),
    WithdrawFromVault(WithdrawFromVaultInstructionData, DerivedKey, DerivedKey),
    CloseVault(CloseVaultInstructionData, DerivedKey, DerivedKey),
    BookTransfer(BookTransferInstructionData, (DerivedKey, DerivedKey, DerivedKey, DerivedKey)),
    ExecuteTransfer(ExecuteTransferInstructionData, (DerivedKey, DerivedKey, DerivedKey, DerivedKey)),
    UnbookTransfer(UnbookTransferInstructionData, (DerivedKey, DerivedKey, DerivedKey, DerivedKey)),
}

/// What the handler of `step` decides on `accounts`.
pub open spec fn step_actions(env: Env, accounts: Seq<Account>, step: Step) -> Result<Seq<Action>, PimeError> {
    match step {
        Step::CreateVault(a, k0, k1) => spec_create_vault(env, accounts, a, k0, k1),
        Step::DepositToVault(a, k) => spec_deposit_to_vault(env, accounts, a, k),
        Step::WithdrawFromVault(a, k0, k1) => spec_withdraw_from_vault(env, accounts, a, k0, k1),
        Step::CloseVault(a, k0, k1) => spec_close_vault(env, accounts, a, k0, k1),
        Step::BookTransfer(a, k) => spec_book_transfer(env, accounts, a, k.0, k.1, k.2, k.3),
        Step::ExecuteTransfer(a, k) => spec_execute_transfer(env, accounts, a, k.0, k.1, k.2, k.3),
        Step::UnbookTransfer(a, k) => spec_unbook_transfer(env, accounts, a, k.0, k.1, k.2, k.3),
    }
}

/// Every instruction that succeeds on accounts that show the ledger keeps
/// the counters.
pub proof fn lemma_step_keeps_counters(l: Ledger, env: Env, accounts: Seq<Account>, step: Step)
    requires
        counters_hold(l),
        all_show(l, env, accounts),
        step_actions(env, accounts, step) is Ok,
        apply_all(l, step_actions(env, accounts, step)->Ok_0) is Some,
    ensures
        counters_hold(apply_all(l, step_actions(env, accounts, step)->Ok_0)->Some_0),
{
    match step {
        Step::CreateVault(a, k0, k1) => lemma_create_keeps_counters(l, env, accounts, a, (k0, k1)),
        Step::DepositToVault(a, k) => lemma_deposit_keeps_counters(l, env, accounts, a, k),
        Step::WithdrawFromVault(a, k0, k1) => lemma_withdraw_keeps_counters(l, env, accounts, a, (k0, k1)),
        Step::CloseVault(a, k0, k1) => lemma_close_keeps_counters(l, env, accounts, a, (k0, k1)),
        Step::BookTransfer(a, k) => lemma_book_keeps_counters(l, env, accounts, a, k),
        Step::ExecuteTransfer(a, k) => lemma_execute_keeps_counters(l, env, accounts, a, k),
        Step::UnbookTransfer(a, k) => lemma_unbook_keeps_counters(l, env, accounts, a, k),
    }
}

/// Over any run of instructions that all succeed, starting from a ledger
/// with no vaults, no transfers and no token accounts, and each reading
/// accounts that show the ledger it runs on: after every instruction, each
/// vault's `open_transfers` equals the number of live transfer records that
/// name it.
pub proof fn lemma_open_transfers_counted(
    ledgers: Seq<Ledger>,
    envs: Seq<Env>,
    snapshots: Seq<Seq<Account>>,
    steps: Seq<Step>,
)
    requires
        ledgers.len() == steps.len() + 1,
        envs.len() == steps.len(),
        snapshots.len() == steps.len(),
        ledgers[0].transfers == Map::<Pubkey, TransferData>::empty(),
        ledgers[0].vaults == Map::<Pubkey, VaultData>::empty(),
        ledgers[0].tokens == Map::<Pubkey, int>::empty(),
        forall|i: int|
            0 <= i < steps.len() ==> {
                &&& all_show(ledgers[i], envs[i], snapshots[i])
                &&& #[trigger] step_actions(envs[i], snapshots[i], steps[i]) is Ok
                &&& apply_all(ledgers[i], step_actions(envs[i], snapshots[i], steps[i])->Ok_0)
                    == Some(ledgers[i + 1])
            },
    ensures
        forall|i: int, v: Pubkey|
            0 <= i < ledgers.len() && #[trigger] ledgers[i].vaults.contains_key(v) ==> ledgers[i].vaults[v].open_transfers
                == records_of(ledgers[i], v).len(),
{
    assert forall|i: int| 0 <= i < ledgers.len() implies #[trigger] counters_hold(ledgers[i]) by {
        lemma_counters_along(ledgers, envs, snapshots, steps, i);
    }
    assert forall|i: int, v: Pubkey|
        0 <= i < ledgers.len() && #[trigger] ledgers[i].vaults.contains_key(v) implies ledgers[i].vaults[v].open_transfers
        == records_of(ledgers[i], v).len() by {
        assert(counters_hold(ledgers[i]));
    }
}

proof fn lemma_counters_along(
    ledgers: Seq<Ledger>,
    envs: Seq<Env>,
    snapshots: Seq<Seq<Account>>,
    steps: Seq<Step>,
    i: int,
)
    requires
        ledgers.len() == steps.len() + 1,
        envs.len() == steps.len(),
        snapshots.len() == steps.len(),
        ledgers[0].transfers == Map::<Pubkey, TransferData>::empty(),
        ledgers[0].vaults == Map::<Pubkey, VaultData>::empty(),
        ledgers[0].tokens == Map::<Pubkey, int>::empty(),
        forall|j: int|
            0 <= j < steps.len() ==> {
                &&& all_show(ledgers[j], envs[j], snapshots[j])
                &&& #[trigger] step_actions(envs[j], snapshots[j], steps[j]) is Ok
                &&& apply_all(ledgers[j], step_actions(envs[j], snapshots[j], steps[j])->Ok_0)
                    == Some(ledgers[j + 1])
            },
        0 <= i < ledgers.len(),
    ensures
        counters_hold(ledgers[i]),
    decreases i,
{
    if i == 0 {
        lemma_empty_ledger_counters(ledgers[0]);
    } else {
        lemma_counters_along(ledgers, envs, snapshots, steps, i - 1);
        assert(step_actions(envs[i - 1], snapshots[i - 1], steps[i - 1]) is Ok);
        lemma_step_keeps_counters(ledgers[i - 1], envs[i - 1], snapshots[i - 1], steps[i - 1]);
    }
}

} // verus!
