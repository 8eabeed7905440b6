//! The backoff schedule between two polls.
use vstd::prelude::*;

verus! {

/// Index of the last (slowest) entry of the schedule.
pub const LAST_INTERVAL_INDEX: usize = 3;

/// Extra cool-down, in milliseconds, imposed when the server rate-limits us.
pub const RATE_LIMIT_COOLDOWN_MS: u64 = 60_000;

/// The wait between consecutive polls, in milliseconds: 1 s, 3 s, 10 s, 30 s.
pub open spec fn poll_schedule() -> Seq<nat> {
    seq![1000nat, 3000nat, 10000nat, 30000nat]
}

/// A cursor clamped to the schedule's last index.
pub open spec fn clamp_cursor(index: nat) -> nat {
    if index <= LAST_INTERVAL_INDEX {
        index
    } else {
        LAST_INTERVAL_INDEX as nat
    }
}

/// The wait that a poll at cursor `index` schedules before the next one.
pub open spec fn interval_at(index: nat) -> nat {
    poll_schedule()[clamp_cursor(index) as int]
}

/// Where the cursor goes after a poll at cursor `index`.
pub open spec fn next_cursor(index: nat) -> nat {
    clamp_cursor(index + 1)
}

/// The cursor after `n` consecutive polls started from a fresh cursor.
pub open spec fn cursor_after(n: nat) -> nat
    decreases n,
{
    if n == 0 {
        0
    } else {
        next_cursor(cursor_after((n - 1) as nat))
    }
}

/// `t + d`, held at the largest representable time.
pub open spec fn later(t: u64, d: nat) -> u64 {
    if t + d <= u64::MAX {
        (t + d) as u64
    } else {
        u64::MAX
    }
}

/// The wait scheduled by a poll at cursor `index`, in milliseconds.
pub fn poll_interval_ms(index: usize) -> (r: u64)
    ensures
        r as nat == interval_at(index as nat),
{
    if index == 0 {
        1000
    } else if index == 1 {
        3000
    } else if index == 2 {
        10000
    } else {
        30000
    }
}

/// The cursor after a poll at cursor `index`: one step on, clamped.
pub fn advance_cursor(index: usize) -> (r: usize)
    ensures
        r as nat == next_cursor(index as nat),
        r <= LAST_INTERVAL_INDEX,
{
    if index < LAST_INTERVAL_INDEX {
        index + 1
    } else {
        LAST_INTERVAL_INDEX
    }
}

/// `t + d` in milliseconds, held at the largest representable time.
pub fn time_after(t: u64, d: u64) -> (r: u64)
    ensures
        r == later(t, d as nat),
{
    t.saturating_add(d)
}

/// Backoff law: absent a rate limit, the `n`-th consecutive poll from a fresh
/// cursor waits `schedule[min(n, last)]`, i.e. 1 s, 3 s, 10 s, 30 s, 30 s, ...
pub proof fn lemma_nth_interval(n: nat)
    ensures
        cursor_after(n) == (if n <= LAST_INTERVAL_INDEX { n } else { LAST_INTERVAL_INDEX as nat }),
        interval_at(cursor_after(n)) == poll_schedule()[(if n <= LAST_INTERVAL_INDEX { n } else { LAST_INTERVAL_INDEX as nat }) as int],
    decreases n,
{
    if n > 0 {
        lemma_nth_interval((n - 1) as nat);
    }
}

} // verus!
