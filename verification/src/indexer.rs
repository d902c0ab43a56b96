//! The decisions of the event indexer's polling loop: how long to wait
//! after a cycle, which ledgers to ask for, and how far to move the cursor.
//! The loop itself, with its requests and its sleep, runs outside.

use vstd::prelude::*;

verus! {

/// The pause after a cycle that went well, in seconds.
pub const POLL_INTERVAL_SECONDS: u64 = 10;

/// The longest pause after a cycle that failed, in seconds.
pub const MAX_BACKOFF_SECONDS: u64 = 60;

/// How many ledgers beyond the first one a cycle asks for at most.
pub const MAX_LEDGER_SPAN: u64 = 200;

/// After this many failures in a row the pause stops doubling.
pub const MAX_DOUBLINGS: u32 = 6;

/// `base` doubled `times` times.
pub open spec fn spec_doubled(base: nat, times: nat) -> nat
    decreases times,
{
    if times == 0 {
        base
    } else {
        2 * spec_doubled(base, (times - 1) as nat)
    }
}

/// The pause after the given number of failures in a row: the poll interval
/// doubled once per failure, at most six times, and capped at a minute.
pub open spec fn spec_backoff(failure_count: u32) -> nat {
    let doublings = if failure_count < MAX_DOUBLINGS {
        failure_count
    } else {
        MAX_DOUBLINGS
    };
    let exponential = spec_doubled(POLL_INTERVAL_SECONDS as nat, doublings as nat);
    if exponential < MAX_BACKOFF_SECONDS {
        exponential
    } else {
        MAX_BACKOFF_SECONDS as nat
    }
}

/// The pause after the given number of failures in a row.
pub fn backoff_seconds(failure_count: u32) -> (res: u64)
    ensures
        res == spec_backoff(failure_count),
        POLL_INTERVAL_SECONDS <= res <= MAX_BACKOFF_SECONDS,
{
    let doublings: u32 = if failure_count < MAX_DOUBLINGS {
        failure_count
    } else {
        MAX_DOUBLINGS
    };
    let mut exponential: u64 = POLL_INTERVAL_SECONDS;
    let mut done: u32 = 0;
    while done < doublings
        invariant
            done <= doublings <= MAX_DOUBLINGS,
            exponential == spec_doubled(POLL_INTERVAL_SECONDS as nat, done as nat),
            POLL_INTERVAL_SECONDS <= exponential <= 640,
            done < MAX_DOUBLINGS ==> exponential <= 320,
        decreases doublings - done,
    {
        proof {
            reveal_with_fuel(spec_doubled, 8);
        }
        exponential = exponential * 2;
        done += 1;
    }
    if exponential < MAX_BACKOFF_SECONDS {
        exponential
    } else {
        MAX_BACKOFF_SECONDS
    }
}

/// What the loop does after a cycle: the new count of failures in a row and
/// the seconds to sleep. A good cycle resets the count and sleeps the poll
/// interval; a failed one counts up, saturating, and backs off.
pub fn after_cycle(cycle_ok: bool, failure_count: u32) -> (res: (u32, u64))
    ensures
        cycle_ok ==> res == (0u32, POLL_INTERVAL_SECONDS),
        !cycle_ok && failure_count < u32::MAX ==> res.0 == failure_count + 1,
        !cycle_ok && failure_count == u32::MAX ==> res.0 == u32::MAX,
        !cycle_ok ==> res.1 == spec_backoff(res.0),
{
    if cycle_ok {
        (0, POLL_INTERVAL_SECONDS)
    } else {
        let failures: u32 = if failure_count == u32::MAX {
            u32::MAX
        } else {
            failure_count + 1
        };
        (failures, backoff_seconds(failures))
    }
}

/// The ledgers a cycle asks for, given the last ledger processed and the
/// latest one the network has: from the one after the cursor up to the
/// latest, but no more than 200 beyond the first. `None` when there is
/// nothing new.
pub open spec fn spec_poll_range(cursor: u64, latest_ledger: u64) -> Option<(u64, u64)> {
    let from = if cursor == u64::MAX {
        cursor
    } else {
        (cursor + 1) as u64
    };
    if from > latest_ledger {
        None
    } else if from + MAX_LEDGER_SPAN < latest_ledger {
        Some((from, (from + MAX_LEDGER_SPAN) as u64))
    } else {
        Some((from, latest_ledger))
    }
}

/// The ledgers a cycle asks for.
pub fn poll_range(cursor: u64, latest_ledger: u64) -> (res: Option<(u64, u64)>)
    ensures
        res == spec_poll_range(cursor, latest_ledger),
        res matches Some((from, to)) ==> cursor <= from <= to <= latest_ledger && to - from
            <= MAX_LEDGER_SPAN,
{
    let from: u64 = if cursor == u64::MAX {
        cursor
    } else {
        cursor + 1
    };
    if from > latest_ledger {
        None
    } else if latest_ledger - from > MAX_LEDGER_SPAN {
        Some((from, from + MAX_LEDGER_SPAN))
    } else {
        Some((from, latest_ledger))
    }
}

/// Where the cursor moves after a cycle over `from_ledger..=to_ledger`: to
/// the end of the range when it held no event, else to the highest ledger
/// seen, but never before the start of the range.
pub fn safe_ledger(no_events: bool, from_ledger: u64, to_ledger: u64, max_seen_ledger: u64) -> (res:
    u64)
    ensures
        no_events ==> res == to_ledger,
        !no_events && max_seen_ledger >= from_ledger ==> res == max_seen_ledger,
        !no_events && max_seen_ledger < from_ledger ==> res == from_ledger,
{
    if no_events {
        to_ledger
    } else if max_seen_ledger >= from_ledger {
        max_seen_ledger
    } else {
        from_ledger
    }
}

} // verus!
