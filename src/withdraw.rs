//! The sliding-window withdrawal engine over a vault's ring of history slots.
use crate::errors::PimeError;
use crate::states::VaultHistory;
use vstd::arithmetic::div_mod::{lemma_mod_add_multiples_vanish, lemma_small_mod};
use vstd::prelude::*;

verus! {

/// A slot counts against the window at time `now` when it is not empty and
/// either the window never expires (`timeframe == 0`) or the slot is no
/// older than `timeframe` seconds.
pub open spec fn in_window(slot: VaultHistory, now: i64, timeframe: i64) -> bool {
    slot.timestamp != 0 && (timeframe == 0 || slot.timestamp + timeframe >= now)
}

/// The slot `j` steps back from the cursor, walking towards older entries.
pub open spec fn slot_back(slots: Seq<VaultHistory>, cursor: int, j: int) -> VaultHistory {
    slots[(cursor + slots.len() - j) % (slots.len() as int)]
}

/// How many slots, walking back from `j` steps behind the cursor, are in
/// the window before the first one that is not.
pub open spec fn run_len(slots: Seq<VaultHistory>, cursor: int, now: i64, timeframe: i64, j: int) -> int
    decreases slots.len() - j,
{
    if j < 0 || j >= slots.len() || !in_window(slot_back(slots, cursor, j), now, timeframe) {
        0
    } else {
        1 + run_len(slots, cursor, now, timeframe, j + 1)
    }
}

/// The amounts of those same slots, summed.
pub open spec fn run_sum(slots: Seq<VaultHistory>, cursor: int, now: i64, timeframe: i64, j: int) -> int
    decreases slots.len() - j,
{
    if j < 0 || j >= slots.len() || !in_window(slot_back(slots, cursor, j), now, timeframe) {
        0
    } else {
        slot_back(slots, cursor, j).amount + run_sum(slots, cursor, now, timeframe, j + 1)
    }
}

/// Whether a withdrawal of `amount` at `now` is admitted: the amounts
/// already in the window plus `amount` must stay within `max_amount`, and a
/// slot outside the window must remain for the new record. The window sum is
/// added up with checked arithmetic: a sum past `u64::MAX` is an overflow,
/// reported before the limits are compared.
pub open spec fn withdrawal_decision(
    slots: Seq<VaultHistory>,
    cursor: int,
    now: i64,
    timeframe: i64,
    max_amount: u64,
    amount: u64,
) -> Result<(), PimeError> {
    if run_sum(slots, cursor, now, timeframe, 0) + amount > u64::MAX {
        Err(PimeError::ArithmeticOverflow)
    } else if run_sum(slots, cursor, now, timeframe, 0) + amount > max_amount {
        Err(PimeError::WithdrawLimitReachedAmount)
    } else if run_len(slots, cursor, now, timeframe, 0) == slots.len() {
        Err(PimeError::WithdrawLimitReachedTransactions)
    } else {
        Ok(())
    }
}

/// The ring position after `cursor`.
pub open spec fn next_cursor(cursor: int, n: int) -> int {
    (cursor + 1) % n
}

pub proof fn lemma_run_bounds(slots: Seq<VaultHistory>, cursor: int, now: i64, timeframe: i64, j: int)
    requires
        0 <= j,
    ensures
        0 <= run_len(slots, cursor, now, timeframe, j),
        j <= slots.len() ==> run_len(slots, cursor, now, timeframe, j) <= slots.len() - j,
        0 <= run_sum(slots, cursor, now, timeframe, j),
    decreases slots.len() - j,
{
    if j < slots.len() {
        lemma_run_bounds(slots, cursor, now, timeframe, j + 1);
    }
}

/// `x % m` for `0 <= x < 2m`.
proof fn lemma_mod_once(x: int, m: int)
    requires
        0 <= x < 2 * m,
        0 < m,
    ensures
        x % m == if x < m { x } else { x - m },
{
    if x < m {
        lemma_small_mod(x as nat, m as nat);
    } else {
        lemma_small_mod((x - m) as nat, m as nat);
        lemma_mod_add_multiples_vanish(x - m, m);
    }
}

/// One step further back along the ring.
proof fn lemma_back_step(c: int, m: int, j: int, i: int)
    requires
        0 <= c < m,
        0 <= j < m,
        i == (c + m - j) % m,
    ensures
        (c + m - (j + 1)) % m == if i == 0 {
            m - 1
        } else {
            i - 1
        },
        0 <= i < m,
{
    lemma_mod_once(c + m - j, m);
    lemma_mod_once(c + m - (j + 1), m);
}

fn slot_in_window(slot: VaultHistory, now: i64, timeframe: i64) -> (r: bool)
    ensures
        r == in_window(slot, now, timeframe),
{
    slot.timestamp != 0 && (timeframe == 0 || (slot.timestamp as i128) + (timeframe as i128)
        >= now as i128)
}

/// Decides whether a withdrawal of `amount` at `now` is admitted, walking the
/// ring back from the most recent record.
pub fn admit_withdrawal(
    history: &Vec<VaultHistory>,
    cursor: u64,
    now: i64,
    timeframe: i64,
    max_amount: u64,
    amount: u64,
) -> (r: Result<(), PimeError>)
    requires
        history@.len() == 0 || cursor < history@.len(),
    ensures
        r == withdrawal_decision(history@, cursor as int, now, timeframe, max_amount, amount),
{
    let n = history.len();
    let ghost slots = history@;
    proof {
        lemma_run_bounds(slots, cursor as int, now, timeframe, 0);
    }
    // `sum` holds the in-window amounts seen so far, walking back from the cursor.
    let mut sum: u64 = 0;
    let mut i: usize = if n == 0 { 0 } else { cursor as usize };
    let mut j: usize = 0;
    let mut open_slot = false;
    proof {
        if n > 0 {
            lemma_mod_once(cursor + n, n as int);
        }
    }
    while j < n && !open_slot
        invariant
            n == slots.len(),
            slots == history@,
            n == 0 || cursor < n,
            0 <= j <= n,
            n > 0 ==> i == (cursor + n - j) % (n as int),
            run_sum(slots, cursor as int, now, timeframe, 0) == sum + run_sum(
                slots,
                cursor as int,
                now,
                timeframe,
                j as int,
            ),
            run_len(slots, cursor as int, now, timeframe, 0) == j + run_len(
                slots,
                cursor as int,
                now,
                timeframe,
                j as int,
            ),
            open_slot ==> j < n && run_len(slots, cursor as int, now, timeframe, j as int) == 0
                && run_sum(slots, cursor as int, now, timeframe, j as int) == 0,
        decreases n - j + (if open_slot { 0int } else { 1int }),
    {
        proof {
            lemma_back_step(cursor as int, n as int, j as int, i as int);
        }
        let slot = history[i];
        assert(slot == slot_back(slots, cursor as int, j as int));
        if !slot_in_window(slot, now, timeframe) {
            open_slot = true;
        } else {
            proof {
                lemma_run_bounds(slots, cursor as int, now, timeframe, j + 1);
            }
            match sum.checked_add(slot.amount) {
                Some(s) => {
                    sum = s;
                },
                None => {
                    return Err(PimeError::ArithmeticOverflow);
                },
            }
            i = if i == 0 { n - 1 } else { i - 1 };
            j = j + 1;
        }
    }
    let total = match sum.checked_add(amount) {
        Some(t) => t,
        None => {
            return Err(PimeError::ArithmeticOverflow);
        },
    };
    if total > max_amount {
        return Err(PimeError::WithdrawLimitReachedAmount);
    }
    if open_slot {
        Ok(())
    } else {
        Err(PimeError::WithdrawLimitReachedTransactions)
    }
}

/// Records an admitted withdrawal in the slot after the cursor and returns
/// the new cursor.
pub fn record_withdrawal(history: &mut Vec<VaultHistory>, cursor: u64, now: i64, amount: u64) -> (r: u64)
    requires
        cursor < old(history)@.len(),
    ensures
        r == next_cursor(cursor as int, old(history)@.len() as int),
        r < old(history)@.len(),
        final(history)@ == old(history)@.update(r as int, VaultHistory { timestamp: now, amount }),
{
    let n = history.len();
    let next: usize = if (cursor as usize) + 1 == n { 0 } else { cursor as usize + 1 };
    proof {
        lemma_mod_once(cursor + 1, n as int);
    }
    history.set(next, VaultHistory::new(now, amount));
    next as u64
}

} // verus!

verus! {

/// The ring mirrors `log`, the accepted withdrawals in the order they were
/// made: walking back from the cursor meets the newest entries first, and
/// the slots past the log's length are empty.
pub open spec fn ring_holds(slots: Seq<VaultHistory>, cursor: int, log: Seq<VaultHistory>) -> bool {
    &&& slots.len() > 0
    &&& 0 <= cursor < slots.len()
    &&& forall|j: int|
        0 <= j < slots.len() ==> (j < log.len() ==> #[trigger] slot_back(slots, cursor, j) == log[log.len()
            - 1 - j]) && (j >= log.len() ==> slot_back(slots, cursor, j).timestamp == 0)
}

/// Timestamps in the log are positive, never later than `now`, and never decrease.
pub open spec fn log_ordered(log: Seq<VaultHistory>, now: i64) -> bool {
    &&& forall|i: int| 0 <= i < log.len() ==> 0 < #[trigger] log[i].timestamp <= now
    &&& forall|i: int, k: int|
        0 <= i < k < log.len() ==> #[trigger] log[i].timestamp <= #[trigger] log[k].timestamp
}

/// The sum of the logged amounts that lie in the window at `now`.
pub open spec fn window_sum(log: Seq<VaultHistory>, now: i64, timeframe: i64) -> int
    decreases log.len(),
{
    if log.len() == 0 {
        0
    } else {
        (if in_window(log.last(), now, timeframe) {
            log.last().amount as int
        } else {
            0
        }) + window_sum(log.drop_last(), now, timeframe)
    }
}

/// How many logged withdrawals lie in the window at `now`.
pub open spec fn window_count(log: Seq<VaultHistory>, now: i64, timeframe: i64) -> int
    decreases log.len(),
{
    if log.len() == 0 {
        0
    } else {
        (if in_window(log.last(), now, timeframe) {
            1int
        } else {
            0
        }) + window_count(log.drop_last(), now, timeframe)
    }
}

/// A freshly created ring, all slots empty, mirrors the empty log.
pub proof fn lemma_fresh_ring(slots: Seq<VaultHistory>)
    requires
        slots.len() > 0,
        forall|i: int| 0 <= i < slots.len() ==> #[trigger] slots[i].timestamp == 0,
    ensures
        ring_holds(slots, 0, Seq::empty()),
{
    assert forall|j: int| 0 <= j < slots.len() implies #[trigger] slot_back(slots, 0, j).timestamp
        == 0 by {
        lemma_mod_once(slots.len() - j, slots.len() as int);
    }
}

/// In an ordered log, nothing before an entry that is out of the window is in it.
proof fn lemma_window_empty_before(log: Seq<VaultHistory>, now: i64, timeframe: i64, k: int)
    requires
        log_ordered(log, now),
        0 < k <= log.len(),
        timeframe >= 0,
        !in_window(log[k - 1], now, timeframe),
    ensures
        window_sum(log.subrange(0, k), now, timeframe) == 0,
        window_count(log.subrange(0, k), now, timeframe) == 0,
    decreases k,
{
    let p = log.subrange(0, k);
    assert(p.last() == log[k - 1]);
    assert(p.drop_last() =~= log.subrange(0, k - 1));
    if k > 1 {
        assert(log[k - 2].timestamp <= log[k - 1].timestamp);
        lemma_window_empty_before(log, now, timeframe, k - 1);
    } else {
        assert(log.subrange(0, 0).len() == 0);
    }
}

/// While the ring's run stops short of the whole ring, it covers exactly the
/// in-window part of the log.
proof fn lemma_run_matches_log(
    slots: Seq<VaultHistory>,
    cursor: int,
    log: Seq<VaultHistory>,
    now: i64,
    timeframe: i64,
    j: int,
)
    requires
        ring_holds(slots, cursor, log),
        log_ordered(log, now),
        timeframe >= 0,
        0 <= j <= log.len(),
        j <= slots.len(),
        run_len(slots, cursor, now, timeframe, j) < slots.len() - j,
    ensures
        run_sum(slots, cursor, now, timeframe, j) == window_sum(
            log.subrange(0, log.len() - j),
            now,
            timeframe,
        ),
        run_len(slots, cursor, now, timeframe, j) == window_count(
            log.subrange(0, log.len() - j),
            now,
            timeframe,
        ),
    decreases log.len() - j,
{
    let k = log.len() - j;
    if j == log.len() {
        assert(log.subrange(0, 0).len() == 0);
    } else {
        let p = log.subrange(0, k);
        assert(slot_back(slots, cursor, j) == log[k - 1]);
        assert(p.last() == log[k - 1]);
        assert(p.drop_last() =~= log.subrange(0, k - 1));
        if in_window(log[k - 1], now, timeframe) {
            lemma_run_matches_log(slots, cursor, log, now, timeframe, j + 1);
        } else {
            lemma_window_empty_before(log, now, timeframe, k);
        }
    }
}

/// Every admitted withdrawal keeps the withdrawals accepted within its window
/// (the seconds `[now - timeframe, now]`, or all of them when `timeframe` is
/// 0) at no more than `max_amount` in sum and at no more than the number of
/// slots in count; and recording it keeps the ring a mirror of the log.
pub proof fn lemma_admitted_withdrawal_within_limits(
    slots: Seq<VaultHistory>,
    cursor: int,
    log: Seq<VaultHistory>,
    now: i64,
    timeframe: i64,
    max_amount: u64,
    amount: u64,
)
    requires
        ring_holds(slots, cursor, log),
        log_ordered(log, now),
        now > 0,
        timeframe >= 0,
        withdrawal_decision(slots, cursor, now, timeframe, max_amount, amount) is Ok,
    ensures
        ({
            let entry = VaultHistory { timestamp: now, amount };
            let log2 = log.push(entry);
            let c2 = next_cursor(cursor, slots.len() as int);
            &&& window_sum(log2, now, timeframe) <= max_amount
            &&& window_count(log2, now, timeframe) <= slots.len()
            &&& ring_holds(slots.update(c2, entry), c2, log2)
            &&& log_ordered(log2, now)
            &&& !in_window(slots[c2], now, timeframe)
        }),
{
    let n = slots.len() as int;
    let entry = VaultHistory { timestamp: now, amount };
    let log2 = log.push(entry);
    let c2 = next_cursor(cursor, n);
    lemma_run_bounds(slots, cursor, now, timeframe, 0);
    if run_len(slots, cursor, now, timeframe, 0) < n && log.len() < n {
        lemma_run_matches_log(slots, cursor, log, now, timeframe, 0);
    } else if run_len(slots, cursor, now, timeframe, 0) < n {
        // The log is at least as long as the ring: the run stops inside both.
        lemma_run_matches_log_long(slots, cursor, log, now, timeframe);
    }
    assert(log.subrange(0, log.len() as int) =~= log);
    assert(log2.drop_last() =~= log);
    assert(log2.last() == entry);
    lemma_mod_once(cursor + 1, n);
    // The overwritten slot is the oldest one the ring holds.
    lemma_mod_once(cursor + n - (n - 1), n);
    assert(slots[c2] == slot_back(slots, cursor, n - 1));
    if log.len() >= n {
        let k = run_len(slots, cursor, now, timeframe, 0);
        lemma_run_stops(slots, cursor, now, timeframe, 0);
        assert(slot_back(slots, cursor, k) == log[log.len() - 1 - k]);
        assert(log[log.len() - n].timestamp <= log[log.len() - 1 - k].timestamp);
    }
    let s2 = slots.update(c2, entry);
    assert forall|j: int| 0 <= j < n implies (j < log2.len() ==> #[trigger] slot_back(s2, c2, j)
        == log2[log2.len() - 1 - j]) && (j >= log2.len() ==> slot_back(s2, c2, j).timestamp
        == 0) by {
        lemma_mod_once(c2 + n - j, n);
        if j > 0 {
            lemma_mod_once(cursor + n - (j - 1), n);
            assert(slot_back(s2, c2, j) == slot_back(slots, cursor, j - 1));
        }
    }
}

/// A run that stops inside the ring stops at a slot outside the window.
proof fn lemma_run_stops(slots: Seq<VaultHistory>, cursor: int, now: i64, timeframe: i64, j: int)
    requires
        0 <= j <= slots.len(),
        run_len(slots, cursor, now, timeframe, j) < slots.len() - j,
    ensures
        j + run_len(slots, cursor, now, timeframe, j) < slots.len(),
        !in_window(
            slot_back(slots, cursor, j + run_len(slots, cursor, now, timeframe, j)),
            now,
            timeframe,
        ),
    decreases slots.len() - j,
{
    if in_window(slot_back(slots, cursor, j), now, timeframe) {
        lemma_run_bounds(slots, cursor, now, timeframe, j + 1);
        lemma_run_stops(slots, cursor, now, timeframe, j + 1);
    }
}

/// The case of a log at least as long as the ring, where the run is bounded
/// by an out-of-window slot.
proof fn lemma_run_matches_log_long(
    slots: Seq<VaultHistory>,
    cursor: int,
    log: Seq<VaultHistory>,
    now: i64,
    timeframe: i64,
)
    requires
        ring_holds(slots, cursor, log),
        log_ordered(log, now),
        timeframe >= 0,
        log.len() >= slots.len(),
        run_len(slots, cursor, now, timeframe, 0) < slots.len(),
    ensures
        run_sum(slots, cursor, now, timeframe, 0) == window_sum(log, now, timeframe),
        run_len(slots, cursor, now, timeframe, 0) == window_count(log, now, timeframe),
{
    lemma_run_long_from(slots, cursor, log, now, timeframe, 0);
    assert(log.subrange(0, log.len() as int) =~= log);
}

proof fn lemma_run_long_from(
    slots: Seq<VaultHistory>,
    cursor: int,
    log: Seq<VaultHistory>,
    now: i64,
    timeframe: i64,
    j: int,
)
    requires
        ring_holds(slots, cursor, log),
        log_ordered(log, now),
        timeframe >= 0,
        log.len() >= slots.len(),
        0 <= j < slots.len(),
        run_len(slots, cursor, now, timeframe, j) < slots.len() - j,
    ensures
        run_sum(slots, cursor, now, timeframe, j) == window_sum(
            log.subrange(0, log.len() - j),
            now,
            timeframe,
        ),
        run_len(slots, cursor, now, timeframe, j) == window_count(
            log.subrange(0, log.len() - j),
            now,
            timeframe,
        ),
    decreases slots.len() - j,
{
    let k = log.len() - j;
    let p = log.subrange(0, k);
    assert(slot_back(slots, cursor, j) == log[k - 1]);
    assert(p.last() == log[k - 1]);
    assert(p.drop_last() =~= log.subrange(0, k - 1));
    if in_window(log[k - 1], now, timeframe) {
        lemma_run_bounds(slots, cursor, now, timeframe, j + 1);
        lemma_run_long_from(slots, cursor, log, now, timeframe, j + 1);
    } else {
        lemma_window_empty_before(log, now, timeframe, k);
    }
}

} // verus!
