//! The loop's arithmetic of time: how long a wait may last, where a calendar
//! timer's next occurrence is searched from, and how far jitter delays it.
use vstd::prelude::*;

verus! {

pub const NANOS_PER_SEC: u64 = 1_000_000_000;

pub const NANOS_PER_MILLI: u64 = 1_000_000;

/// Milliseconds until a deadline, rounded up so a wait of that long reaches
/// it; -1 (wait forever) with no deadline, 0 for one already due, and at
/// most `i32::MAX`.
pub open spec fn spec_deadline_wait_timeout_ms(deadline_ns: Option<u64>, now_ns: u64) -> int {
    match deadline_ns {
        None => -1,
        Some(d) => if d <= now_ns {
            0
        } else {
            let remaining = d - now_ns;
            let ms = (remaining + 999_999) / 1_000_000;
            if ms > 0x7fff_ffff {
                0x7fff_ffff
            } else {
                ms
            }
        },
    }
}

pub fn deadline_wait_timeout_ms(deadline_ns: Option<u64>, now_ns: u64) -> (ms: i32)
    ensures
        ms == spec_deadline_wait_timeout_ms(deadline_ns, now_ns),
{
    let deadline_ns = match deadline_ns {
        None => return -1,
        Some(d) => d,
    };
    if deadline_ns <= now_ns {
        return 0;
    }
    let remaining_ns = deadline_ns - now_ns;
    let remaining_ms = remaining_ns / NANOS_PER_MILLI + if remaining_ns % NANOS_PER_MILLI != 0 { 1 } else { 0 };
    assert(remaining_ms == (remaining_ns + 999_999) / 1_000_000);
    if remaining_ms > 0x7fff_ffff {
        0x7fff_ffff
    } else {
        remaining_ms as i32
    }
}

/// A wait for a future deadline is never zero, and, unless clamped, never
/// ends before the deadline.
pub proof fn law_wait_reaches_the_deadline(deadline_ns: u64, now_ns: u64)
    requires
        now_ns < deadline_ns,
    ensures
        spec_deadline_wait_timeout_ms(Some(deadline_ns), now_ns) >= 1,
        spec_deadline_wait_timeout_ms(Some(deadline_ns), now_ns) < 0x7fff_ffff ==> now_ns
            + spec_deadline_wait_timeout_ms(Some(deadline_ns), now_ns) * 1_000_000 >= deadline_ns,
        spec_deadline_wait_timeout_ms(Some(deadline_ns), now_ns) * 1_000_000 < deadline_ns - now_ns + 1_000_000,
{
    let remaining = deadline_ns - now_ns;
    let ms = (remaining + 999_999) / 1_000_000;
    assert(ms * 1_000_000 <= remaining + 999_999) by (nonlinear_arith)
        requires ms == (remaining + 999_999) / 1_000_000;
    assert(ms * 1_000_000 > remaining + 999_999 - 1_000_000) by (nonlinear_arith)
        requires ms == (remaining + 999_999) / 1_000_000;
}

/// The earliest of the deadlines that are set.
pub open spec fn earliest(a: Option<u64>, b: Option<u64>) -> Option<u64> {
    match (a, b) {
        (Some(x), Some(y)) => Some(if x <= y { x } else { y }),
        (Some(x), None) => Some(x),
        (None, y) => y,
    }
}

pub fn earliest_deadline(a: Option<u64>, b: Option<u64>) -> (r: Option<u64>)
    ensures
        r == earliest(a, b),
{
    match (a, b) {
        (Some(x), Some(y)) => Some(if x <= y { x } else { y }),
        (Some(x), None) => Some(x),
        (None, y) => y,
    }
}

/// Where the search for the occurrence after a firing starts.
///
/// Anchored on the occurrence that fired, not on the clock: jitter delayed
/// the firing, so the clock may already be past the next occurrence, and a
/// search from now would skip it. Only an occurrence more than the jitter
/// window in the past, which no draw of the jitter could have delayed to
/// now, is left behind as missed.
pub open spec fn spec_rearm_anchor_ns(fired_scheduled_ns: u64, jitter_secs: u64, realtime_now_ns: u64) -> u64 {
    let jitter_ns: int = if jitter_secs * 1_000_000_000 > u64::MAX { u64::MAX as int } else { jitter_secs * 1_000_000_000 };
    let floor: int = if realtime_now_ns < jitter_ns { 0 } else { realtime_now_ns - jitter_ns };
    if fired_scheduled_ns >= floor { fired_scheduled_ns } else { floor as u64 }
}

pub fn rearm_anchor_ns(fired_scheduled_ns: u64, jitter_secs: u64, realtime_now_ns: u64) -> (a: u64)
    ensures
        a == spec_rearm_anchor_ns(fired_scheduled_ns, jitter_secs, realtime_now_ns),
{
    let jitter_ns = match jitter_secs.checked_mul(NANOS_PER_SEC) {
        Some(j) => j,
        None => u64::MAX,
    };
    let floor = realtime_now_ns.saturating_sub(jitter_ns);
    if fired_scheduled_ns >= floor {
        fired_scheduled_ns
    } else {
        floor
    }
}

/// The anchor is never earlier than the occurrence that fired, and never
/// later than both it and the clock; with no jitter it is the later of the
/// two.
pub proof fn law_rearm_anchor_bounds(fired_scheduled_ns: u64, jitter_secs: u64, realtime_now_ns: u64)
    ensures
        spec_rearm_anchor_ns(fired_scheduled_ns, jitter_secs, realtime_now_ns) >= fired_scheduled_ns,
        spec_rearm_anchor_ns(fired_scheduled_ns, jitter_secs, realtime_now_ns) <= if fired_scheduled_ns
            >= realtime_now_ns { fired_scheduled_ns } else { realtime_now_ns },
        jitter_secs == 0 ==> spec_rearm_anchor_ns(fired_scheduled_ns, jitter_secs, realtime_now_ns) == if fired_scheduled_ns
            >= realtime_now_ns { fired_scheduled_ns } else { realtime_now_ns },
{
}

/// Why a jittered deadline could not be computed.
#[derive(Debug, Clone, Copy, PartialEq, Eq)]
pub enum TimerJitterError {
    /// The jitter window does not fit in nanoseconds.
    WindowOverflow { jitter_secs: u64 },
    /// The delayed deadline does not fit in nanoseconds.
    DeadlineOverflow { scheduled_ns: u64, offset_ns: u64 },
}

/// The delay a random draw gives within a window of `jitter_ns`.
pub open spec fn jitter_offset(jitter_ns: nat, random: u64) -> nat {
    if jitter_ns == 0 {
        0
    } else if jitter_ns >= u64::MAX {
        random as nat
    } else {
        (random as nat) % (jitter_ns + 1)
    }
}

/// A scheduled occurrence delayed by a random draw within its jitter window:
/// jitter only ever delays a firing, and never past the window.
pub open spec fn spec_jittered_deadline_ns(scheduled_ns: u64, jitter_secs: u64, random: u64) -> Result<u64, TimerJitterError> {
    let jitter_ns = jitter_secs * 1_000_000_000;
    if jitter_ns > u64::MAX {
        Err(TimerJitterError::WindowOverflow { jitter_secs })
    } else {
        let offset = jitter_offset(jitter_ns as nat, random);
        if scheduled_ns + offset > u64::MAX {
            Err(TimerJitterError::DeadlineOverflow { scheduled_ns, offset_ns: offset as u64 })
        } else {
            Ok((scheduled_ns + offset) as u64)
        }
    }
}

pub fn jittered_deadline_ns(scheduled_ns: u64, jitter_secs: u64, random: u64) -> (r: Result<u64, TimerJitterError>)
    ensures
        r == spec_jittered_deadline_ns(scheduled_ns, jitter_secs, random),
{
    let jitter_ns = match jitter_secs.checked_mul(NANOS_PER_SEC) {
        Some(j) => j,
        None => return Err(TimerJitterError::WindowOverflow { jitter_secs }),
    };
    let offset_ns = if jitter_ns == 0 {
        0
    } else if jitter_ns == u64::MAX {
        random
    } else {
        random % (jitter_ns + 1)
    };
    match scheduled_ns.checked_add(offset_ns) {
        Some(armed) => Ok(armed),
        None => Err(TimerJitterError::DeadlineOverflow { scheduled_ns, offset_ns }),
    }
}

/// A jittered deadline lies inside the occurrence's jitter window.
pub proof fn law_jitter_stays_in_window(scheduled_ns: u64, jitter_secs: u64, random: u64)
    requires
        spec_jittered_deadline_ns(scheduled_ns, jitter_secs, random) is Ok,
    ensures
        scheduled_ns <= spec_jittered_deadline_ns(scheduled_ns, jitter_secs, random)->Ok_0,
        spec_jittered_deadline_ns(scheduled_ns, jitter_secs, random)->Ok_0 <= scheduled_ns + jitter_secs * 1_000_000_000,
{
    let jitter_ns = jitter_secs * 1_000_000_000;
    if jitter_ns > 0 && jitter_ns < u64::MAX {
        assert((random as nat) % ((jitter_ns + 1) as nat) < jitter_ns + 1);
    }
}

/// The two calendar-timer steps of a turn after a registry reload.
#[derive(Debug, Clone, Copy, PartialEq, Eq)]
pub enum CalendarTimerMaintenanceStep {
    ProcessReadyTimers,
    ReconfigureAfterReload,
}

/// Ready timers are always processed, and first: the descriptors a wait
/// returned belong to the table that existed at wait time, so they are
/// consumed before a reload rebuilds it.
pub fn calendar_timer_maintenance_steps(reload_config_succeeded: bool) -> (steps: Vec<CalendarTimerMaintenanceStep>)
    ensures
        reload_config_succeeded ==> steps@ == seq![
            CalendarTimerMaintenanceStep::ProcessReadyTimers,
            CalendarTimerMaintenanceStep::ReconfigureAfterReload,
        ],
        !reload_config_succeeded ==> steps@ == seq![CalendarTimerMaintenanceStep::ProcessReadyTimers],
{
    let mut steps = Vec::new();
    steps.push(CalendarTimerMaintenanceStep::ProcessReadyTimers);
    if reload_config_succeeded {
        steps.push(CalendarTimerMaintenanceStep::ReconfigureAfterReload);
    }
    steps
}

} // verus!
