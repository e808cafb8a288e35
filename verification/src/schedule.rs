//! When to act again.

use vstd::prelude::*;

verus! {

/// The shortest wait for a boundary of an election, in seconds.
pub const MIN_BOUNDARY_WAIT_SECS: u64 = 5;

/// How long after it is due a frozen stake is counted on, in seconds.
pub const SIMPLE_STAKE_UNFREEZE_OFFSET_SECS: u32 = 600;

/// How long before the end of an election no stake is waited for any more, in seconds.
pub const SIMPLE_ELECTIONS_END_OFFSET_SECS: u32 = 120;

/// Up to how far the elector's state may lag behind the clock for the lag to count, in seconds.
pub const MAX_ELECTOR_TIME_DIFF_SECS: u32 = 120;

/// The wait for a boundary: at least the shortest one.
pub open spec fn boundary_wait(wait_secs: u32) -> u64 {
    if wait_secs as u64 >= MIN_BOUNDARY_WAIT_SECS {
        wait_secs as u64
    } else {
        MIN_BOUNDARY_WAIT_SECS
    }
}

/// Seconds to wait for a boundary that is `wait_secs` ahead.
pub fn boundary_wait_secs(wait_secs: u32) -> (r: u64)
    ensures
        r == boundary_wait(wait_secs),
{
    if wait_secs as u64 >= MIN_BOUNDARY_WAIT_SECS {
        wait_secs as u64
    } else {
        MIN_BOUNDARY_WAIT_SECS
    }
}

/// How far the elector's state lags behind the clock, up to the largest lag that counts.
pub open spec fn time_lag(now: u32, gen_utime: u32) -> u32 {
    if now < gen_utime {
        0
    } else if now - gen_utime > MAX_ELECTOR_TIME_DIFF_SECS {
        MAX_ELECTOR_TIME_DIFF_SECS
    } else {
        (now - gen_utime) as u32
    }
}

/// How far the elector's state lags behind the clock, up to the largest lag that counts. A state
/// without a time counts as made at time zero.
pub fn elector_time_diff(now: u32, gen_utime: Option<u32>) -> (r: u32)
    ensures
        r == time_lag(
            now,
            match gen_utime {
                Some(t) => t,
                None => 0,
            },
        ),
{
    let generated: u32 = match gen_utime {
        Some(t) => t,
        None => 0,
    };
    let lag: u32 = now.saturating_sub(generated);
    if lag > MAX_ELECTOR_TIME_DIFF_SECS {
        MAX_ELECTOR_TIME_DIFF_SECS
    } else {
        lag
    }
}

pub open spec fn capped_u32_sum(a: u32, b: u32) -> u32 {
    if a + b > u32::MAX {
        u32::MAX
    } else {
        (a + b) as u32
    }
}

pub open spec fn floored_u32_difference(a: u32, b: u32) -> u32 {
    if a >= b {
        (a - b) as u32
    } else {
        0
    }
}

/// The moment from which a stake that unfreezes at `unfreeze_at` can be counted on.
pub open spec fn usable_at(unfreeze_at: u32) -> u32 {
    capped_u32_sum(unfreeze_at, SIMPLE_STAKE_UNFREEZE_OFFSET_SECS)
}

/// The last moment at which a stake still helps in an election.
pub open spec fn stake_deadline(elections_end: u32) -> u32 {
    floored_u32_difference(elections_end, SIMPLE_ELECTIONS_END_OFFSET_SECS)
}

/// Whether a frozen stake is worth waiting for: it comes in time, and it is not there yet.
pub open spec fn worth_waiting(unfreeze_at: Option<u32>, elections_end: u32, now: u32) -> bool {
    &&& unfreeze_at matches Some(t)
    &&& usable_at(t) <= stake_deadline(elections_end)
    &&& now < usable_at(t)
}

/// How long to wait for a frozen stake before taking part in an election.
///
/// `unfreeze_at` is when the next frozen stake unfreezes, and `time_diff` how far the elector's
/// state lags.
pub fn compute_simple_stake_unfreeze_wait_secs(
    unfreeze_at: Option<u32>,
    elections_end: u32,
    now: u32,
    time_diff: u32,
) -> (r: Option<u32>)
    ensures
        r is Some <==> worth_waiting(unfreeze_at, elections_end, now),
        r matches Some(wait) ==> wait == capped_u32_sum(
            (usable_at(unfreeze_at->Some_0) - now) as u32,
            time_diff,
        ),
{
    let due: u32 = match unfreeze_at {
        Some(t) => t,
        None => {
            return None;
        },
    };
    let usable: u32 = due.saturating_add(SIMPLE_STAKE_UNFREEZE_OFFSET_SECS);
    let deadline: u32 = elections_end.saturating_sub(SIMPLE_ELECTIONS_END_OFFSET_SECS);
    if usable > deadline {
        return None;
    }
    let until_unfreeze: u32 = usable.saturating_sub(now);
    if until_unfreeze == 0 {
        return None;
    }
    Some(until_unfreeze.saturating_add(time_diff))
}

/// Seconds to wait for a frozen stake, as a wait for a boundary.
pub fn simple_stake_unfreeze_wait(
    unfreeze_at: Option<u32>,
    elections_end: u32,
    now: u32,
    time_diff: u32,
) -> (r: Option<u64>)
    ensures
        r == unfreeze_wait(unfreeze_at, elections_end, now, time_diff),
{
    match compute_simple_stake_unfreeze_wait_secs(unfreeze_at, elections_end, now, time_diff) {
        Some(wait) => Some(boundary_wait_secs(wait)),
        None => None,
    }
}

/// The wait for a frozen stake, as a wait for a boundary.
pub open spec fn unfreeze_wait(
    unfreeze_at: Option<u32>,
    elections_end: u32,
    now: u32,
    time_diff: u32,
) -> Option<u64> {
    if worth_waiting(unfreeze_at, elections_end, now) {
        Some(
            boundary_wait(
                capped_u32_sum((usable_at(unfreeze_at->Some_0) - now) as u32, time_diff),
            ),
        )
    } else {
        None
    }
}

/// Nobody wakes before the boundary, nor sooner than the shortest wait.
pub proof fn law_boundary_wait_is_long_enough(wait_secs: u32)
    ensures
        boundary_wait(wait_secs) >= wait_secs,
        boundary_wait(wait_secs) >= MIN_BOUNDARY_WAIT_SECS,
        wait_secs >= MIN_BOUNDARY_WAIT_SECS ==> boundary_wait(wait_secs) == wait_secs,
{
}

/// Whoever waits for a frozen stake wakes when it can be used, as long as the wait fits 32 bits.
pub proof fn law_unfreeze_wait_reaches_stake(
    unfreeze_at: u32,
    elections_end: u32,
    now: u32,
    time_diff: u32,
)
    requires
        unfreeze_wait(Some(unfreeze_at), elections_end, now, time_diff) is Some,
        usable_at(unfreeze_at) - now + time_diff <= u32::MAX,
    ensures
        now + unfreeze_wait(Some(unfreeze_at), elections_end, now, time_diff)->Some_0 >= usable_at(
            unfreeze_at,
        ) + time_diff,
{
}

/// A stake is waited for only where it unfreezes before the election's end.
pub proof fn law_unfreeze_wait_only_before_end(
    unfreeze_at: u32,
    elections_end: u32,
    now: u32,
    time_diff: u32,
)
    requires
        unfreeze_wait(Some(unfreeze_at), elections_end, now, time_diff) is Some,
    ensures
        now < usable_at(unfreeze_at) <= elections_end,
{
}

/// A wait for a boundary is the time until it, or five seconds where that is longer.
pub proof fn law_boundary_wait_is_the_time_until_it(wait_secs: u32)
    ensures
        boundary_wait(wait_secs) == wait_secs || (wait_secs < 5 && boundary_wait(wait_secs) == 5),
        boundary_wait(wait_secs) >= 5,
{
}

/// The lag is the age of the elector's state, never more than two minutes, and none where the state
/// is ahead of the clock.
pub proof fn law_time_lag_is_the_age(now: u32, gen_utime: u32)
    ensures
        gen_utime <= now && now - gen_utime <= 120 ==> time_lag(now, gen_utime) == now - gen_utime,
        gen_utime <= now && now - gen_utime > 120 ==> time_lag(now, gen_utime) == 120,
        gen_utime > now ==> time_lag(now, gen_utime) == 0,
{
}

/// A frozen stake is waited for exactly where it is still to come, ten minutes after it unfreezes,
/// and comes no later than two minutes before the election ends. The wait then lasts until it is
/// there, and as much longer as the elector's state lags.
pub proof fn law_frozen_stake_is_waited_for(
    unfreeze_at: u32,
    elections_end: u32,
    now: u32,
    time_diff: u32,
)
    requires
        unfreeze_at + 600 <= u32::MAX,
        120 <= elections_end,
    ensures
        unfreeze_wait(Some(unfreeze_at), elections_end, now, time_diff) is Some <==> (now
            < unfreeze_at + 600 && unfreeze_at + 600 + 120 <= elections_end),
        unfreeze_wait(Some(unfreeze_at), elections_end, now, time_diff) matches Some(wait) ==> {
            let due = unfreeze_at + 600 - now + time_diff;
            if due > u32::MAX {
                wait == u32::MAX
            } else if due < 5 {
                wait == 5
            } else {
                wait == due
            }
        },
        worth_waiting(Some(unfreeze_at), elections_end, now) <==> unfreeze_wait(
            Some(unfreeze_at),
            elections_end,
            now,
            time_diff,
        ) is Some,
{
}

/// Without a frozen stake there is no wait, and none is worth it in an election that ends too soon
/// for any.
pub proof fn law_no_wait_without_a_chance(
    unfreeze_at: Option<u32>,
    elections_end: u32,
    now: u32,
    time_diff: u32,
)
    ensures
        unfreeze_wait(None, elections_end, now, time_diff) is None,
        elections_end < 720 ==> unfreeze_wait(unfreeze_at, elections_end, now, time_diff) is None,
        unfreeze_at matches Some(t) ==> (now >= t + 600) ==> unfreeze_wait(
            unfreeze_at,
            elections_end,
            now,
            time_diff,
        ) is None,
        unfreeze_at matches Some(t) ==> (t + 600 > u32::MAX) ==> unfreeze_wait(
            unfreeze_at,
            elections_end,
            now,
            time_diff,
        ) is None,
{
}

/// A state without a time counts as made at time zero, and one with a time lags by its age, up to
/// two minutes.
pub proof fn law_elector_lag_is_the_age(now: u32, gen_utime: u32, dated: u32, undated: u32)
    requires
        call_ensures(elector_time_diff, (now, Some(gen_utime)), dated),
        call_ensures(elector_time_diff, (now, None), undated),
    ensures
        dated <= 120,
        gen_utime <= now ==> dated == now - gen_utime || dated == 120 && now - gen_utime > 120,
        gen_utime > now ==> dated == 0,
        undated == now || undated == 120 && now > 120,
{
}

/// The plain wait for a frozen stake lasts until ten minutes after it unfreezes and as much longer
/// as the elector's state lags, and it is there exactly where the stake is worth waiting for.
pub proof fn law_plain_unfreeze_wait(
    unfreeze_at: u32,
    elections_end: u32,
    now: u32,
    time_diff: u32,
    r: Option<u32>,
    none: Option<u32>,
)
    requires
        call_ensures(
            compute_simple_stake_unfreeze_wait_secs,
            (Some(unfreeze_at), elections_end, now, time_diff),
            r,
        ),
        call_ensures(
            compute_simple_stake_unfreeze_wait_secs,
            (None, elections_end, now, time_diff),
            none,
        ),
        unfreeze_at + 600 <= u32::MAX,
        elections_end >= 120,
    ensures
        none is None,
        r is Some <==> now < unfreeze_at + 600 && unfreeze_at + 720 <= elections_end,
        r matches Some(wait) ==> wait == unfreeze_at + 600 - now + time_diff || wait == u32::MAX
            && unfreeze_at + 600 - now + time_diff > u32::MAX,
{
}

} // verus!
