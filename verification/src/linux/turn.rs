//! Assembling one turn of the Linux runtime: where the idle closures, the
//! replayed reaps and the calendar timers go in the turn's record, and
//! whether the turn reloaded the configuration.
use vstd::prelude::*;
use crate::event_loop::model::RuntimeShutdownLoopTurn;
use crate::event_loop::source::RuntimeEventSource;
use crate::model::control::{SupervisorControlCommandDispatch, SupervisorControlFrameTurn};
use crate::model::turn::{RuntimeCalendarTimerTurn, RuntimeShutdownEventTurn, SupervisorChildReapTurn};

verus! {

/// Record the control connections closed as idle before the wait, ahead
/// of everything the wait brought. Nothing is recorded for none.
pub fn prepend_idle_closure_turn(turn: &mut RuntimeShutdownLoopTurn, fds: Vec<i32>)
    ensures
        final(turn).pre_work == old(turn).pre_work,
        final(turn).sources == old(turn).sources,
        final(turn).post_work == old(turn).post_work,
        final(turn).eventd_forwarding == old(turn).eventd_forwarding,
        final(turn).turns@ == if fds@.len() == 0 {
            old(turn).turns@
        } else {
            seq![RuntimeShutdownEventTurn::IdleControlConnectionsClosed { fds }] + old(turn).turns@
        },
{
    if fds.len() > 0 {
        let ghost before = turn.turns@;
        turn.turns.insert(0, RuntimeShutdownEventTurn::IdleControlConnectionsClosed { fds });
        assert(turn.turns@ =~= seq![RuntimeShutdownEventTurn::IdleControlConnectionsClosed { fds }] + before);
    }
}

/// The same for the jobs connections closed as idle before the wait.
pub fn prepend_idle_jobs_closure_turn(turn: &mut RuntimeShutdownLoopTurn, fds: Vec<i32>)
    ensures
        final(turn).pre_work == old(turn).pre_work,
        final(turn).sources == old(turn).sources,
        final(turn).post_work == old(turn).post_work,
        final(turn).eventd_forwarding == old(turn).eventd_forwarding,
        final(turn).turns@ == if fds@.len() == 0 {
            old(turn).turns@
        } else {
            seq![RuntimeShutdownEventTurn::IdleJobsConnectionsClosed { fds }] + old(turn).turns@
        },
{
    if fds.len() > 0 {
        let ghost before = turn.turns@;
        turn.turns.insert(0, RuntimeShutdownEventTurn::IdleJobsConnectionsClosed { fds });
        assert(turn.turns@ =~= seq![RuntimeShutdownEventTurn::IdleJobsConnectionsClosed { fds }] + before);
    }
}

/// Record the control connections closed as idle after the turn's events.
pub fn append_idle_closure_turn(turn: &mut RuntimeShutdownLoopTurn, fds: Vec<i32>)
    ensures
        final(turn).pre_work == old(turn).pre_work,
        final(turn).sources == old(turn).sources,
        final(turn).post_work == old(turn).post_work,
        final(turn).eventd_forwarding == old(turn).eventd_forwarding,
        final(turn).turns@ == if fds@.len() == 0 {
            old(turn).turns@
        } else {
            old(turn).turns@.push(RuntimeShutdownEventTurn::IdleControlConnectionsClosed { fds })
        },
{
    if fds.len() > 0 {
        turn.turns.push(RuntimeShutdownEventTurn::IdleControlConnectionsClosed { fds });
    }
}

/// Record the jobs connections closed as idle after the turn's events.
pub fn append_idle_jobs_closure_turn(turn: &mut RuntimeShutdownLoopTurn, fds: Vec<i32>)
    ensures
        final(turn).pre_work == old(turn).pre_work,
        final(turn).sources == old(turn).sources,
        final(turn).post_work == old(turn).post_work,
        final(turn).eventd_forwarding == old(turn).eventd_forwarding,
        final(turn).turns@ == if fds@.len() == 0 {
            old(turn).turns@
        } else {
            old(turn).turns@.push(RuntimeShutdownEventTurn::IdleJobsConnectionsClosed { fds })
        },
{
    if fds.len() > 0 {
        turn.turns.push(RuntimeShutdownEventTurn::IdleJobsConnectionsClosed { fds });
    }
}

/// Record the exits replayed after the turn's events: those reaped before
/// their job carried a pid. Nothing is recorded when none were ready.
pub fn push_deferred_child_reaps_turn(turn: &mut RuntimeShutdownLoopTurn, child_reaps: Vec<SupervisorChildReapTurn>, ended_at_ns: u64)
    ensures
        final(turn).pre_work == old(turn).pre_work,
        final(turn).sources == old(turn).sources,
        final(turn).post_work == old(turn).post_work,
        final(turn).eventd_forwarding == old(turn).eventd_forwarding,
        final(turn).turns@ == if child_reaps@.len() == 0 {
            old(turn).turns@
        } else {
            old(turn).turns@.push(RuntimeShutdownEventTurn::DeferredChildReaps { child_reaps, ended_at_ns })
        },
{
    if child_reaps.len() > 0 {
        turn.turns.push(RuntimeShutdownEventTurn::DeferredChildReaps { child_reaps, ended_at_ns });
    }
}

pub open spec fn is_calendar_source(s: RuntimeEventSource) -> bool {
    s is CalendarTimer
}

/// Split the wait's sources into the calendar timers and the rest, each in
/// the order the wait returned them. Calendar timers are processed after
/// the other sources, against the timer table the wait saw.
pub fn partition_calendar_sources(sources: Vec<RuntimeEventSource>) -> (r: (Vec<RuntimeEventSource>, Vec<RuntimeEventSource>))
    ensures
        r.0@ == sources@.filter(|s: RuntimeEventSource| is_calendar_source(s)),
        r.1@ == sources@.filter(|s: RuntimeEventSource| !is_calendar_source(s)),
{
    let ghost p = |s: RuntimeEventSource| is_calendar_source(s);
    let ghost q = |s: RuntimeEventSource| !is_calendar_source(s);
    let mut calendar: Vec<RuntimeEventSource> = Vec::new();
    let mut other: Vec<RuntimeEventSource> = Vec::new();
    let n = sources.len();
    let mut i: usize = 0;
    while i < n
        invariant
            n == sources@.len(),
            0 <= i <= n,
            calendar@ == sources@.take(i as int).filter(p),
            other@ == sources@.take(i as int).filter(q),
            forall|x: RuntimeEventSource| #[trigger] p(x) == is_calendar_source(x),
            forall|x: RuntimeEventSource| #[trigger] q(x) == !is_calendar_source(x),
        decreases n - i,
    {
        let source = sources[i];
        proof {
            reveal(Seq::filter);
            assert(sources@.take(i + 1).drop_last() =~= sources@.take(i as int));
            assert(sources@.take(i + 1).last() == source);
        }
        match source {
            RuntimeEventSource::CalendarTimer { .. } => calendar.push(source),
            _ => other.push(source),
        }
        i += 1;
    }
    proof {
        assert(sources@.take(n as int) =~= sources@);
    }
    (calendar, other)
}

/// The record of a calendar timer's turn.
pub open spec fn calendar_event_turn(t: (i32, RuntimeCalendarTimerTurn)) -> RuntimeShutdownEventTurn {
    RuntimeShutdownEventTurn::CalendarTimer { fd: t.0, turn: t.1 }
}

/// Finish the turn's record: the calendar sources join the sources, and
/// each calendar timer's turn follows everything else, in order.
pub fn attach_calendar_turns(turn: &mut RuntimeShutdownLoopTurn, calendar_sources: Vec<RuntimeEventSource>, calendar_turns: Vec<(i32, RuntimeCalendarTimerTurn)>)
    ensures
        final(turn).pre_work == old(turn).pre_work,
        final(turn).post_work == old(turn).post_work,
        final(turn).eventd_forwarding == old(turn).eventd_forwarding,
        final(turn).sources@ == old(turn).sources@ + calendar_sources@,
        final(turn).turns@ == old(turn).turns@ + calendar_turns@.map_values(|t: (i32, RuntimeCalendarTimerTurn)| calendar_event_turn(t)),
{
    let ghost sources_before = turn.sources@;
    let ghost turns_before = turn.turns@;
    let ghost all = calendar_turns@;
    let n = calendar_sources.len();
    let mut i: usize = 0;
    while i < n
        invariant
            n == calendar_sources@.len(),
            0 <= i <= n,
            turn.sources@ == sources_before + calendar_sources@.take(i as int),
            turn.pre_work == old(turn).pre_work,
            turn.post_work == old(turn).post_work,
            turn.eventd_forwarding == old(turn).eventd_forwarding,
            turn.turns@ == turns_before,
        decreases n - i,
    {
        turn.sources.push(calendar_sources[i]);
        proof {
            assert(calendar_sources@.take(i + 1) =~= calendar_sources@.take(i as int).push(calendar_sources@[i as int]));
        }
        i += 1;
    }
    proof {
        assert(calendar_sources@.take(n as int) =~= calendar_sources@);
    }
    let mut rest = calendar_turns;
    let m = rest.len();
    let mut k: usize = 0;
    while k < m
        invariant
            m == all.len(),
            0 <= k <= m,
            rest@ == all.skip(k as int),
            turn.sources@ == sources_before + calendar_sources@,
            turn.pre_work == old(turn).pre_work,
            turn.post_work == old(turn).post_work,
            turn.eventd_forwarding == old(turn).eventd_forwarding,
            turn.turns@ == turns_before + all.take(k as int).map_values(|t: (i32, RuntimeCalendarTimerTurn)| calendar_event_turn(t)),
        decreases m - k,
    {
        let (fd, calendar_turn) = rest.remove(0);
        proof {
            assert(all[k as int] == (fd, calendar_turn));
            assert(all.take(k + 1) =~= all.take(k as int).push(all[k as int]));
            assert(all.take(k + 1).map_values(|t: (i32, RuntimeCalendarTimerTurn)| calendar_event_turn(t))
                =~= all.take(k as int).map_values(|t: (i32, RuntimeCalendarTimerTurn)| calendar_event_turn(t)).push(
                calendar_event_turn(all[k as int]),
            ));
            assert(rest@ =~= all.skip(k + 1));
        }
        turn.turns.push(RuntimeShutdownEventTurn::CalendarTimer { fd, turn: calendar_turn });
        k += 1;
    }
    proof {
        assert(all.take(m as int) =~= all);
    }
}

/// Whether a control frame applied a configuration reload.
pub open spec fn frame_reloaded_config(f: SupervisorControlFrameTurn) -> bool {
    f matches SupervisorControlFrameTurn::CommandAccepted { dispatch: Some(d), .. } && *d is ReloadConfig
}

/// Whether an event turn reloaded the configuration: a registry watch or
/// the deferred boot reload that succeeded, or a control command that
/// applied one.
pub open spec fn turn_reloaded_config(t: RuntimeShutdownEventTurn) -> bool {
    match t {
        RuntimeShutdownEventTurn::RegistryWatch { reload: Some(outcome), .. } => outcome is Ok,
        RuntimeShutdownEventTurn::DeferredRegistryReload { turn } => turn.outcome is Ok,
        RuntimeShutdownEventTurn::ControlConnection { supervisor, .. } => exists|j: int|
            0 <= j < supervisor.frames@.len() && frame_reloaded_config(#[trigger] supervisor.frames@[j]),
        _ => false,
    }
}

fn frames_reloaded_config(frames: &Vec<SupervisorControlFrameTurn>) -> (r: bool)
    ensures
        r == exists|j: int| 0 <= j < frames@.len() && frame_reloaded_config(#[trigger] frames@[j]),
{
    let n = frames.len();
    let mut i: usize = 0;
    while i < n
        invariant
            n == frames@.len(),
            0 <= i <= n,
            forall|j: int| 0 <= j < i ==> !frame_reloaded_config(#[trigger] frames@[j]),
        decreases n - i,
    {
        let hit = match &frames[i] {
            SupervisorControlFrameTurn::CommandAccepted { dispatch: Some(d), .. } => match &**d {
                SupervisorControlCommandDispatch::ReloadConfig(_) => true,
                _ => false,
            },
            _ => false,
        };
        if hit {
            assert(frame_reloaded_config(frames@[i as int]));
            return true;
        }
        i += 1;
    }
    false
}

/// Whether anything in the turn reloaded the configuration, so the
/// calendar timers have to be rebuilt from it.
pub fn reload_config_succeeded(turns: &Vec<RuntimeShutdownEventTurn>) -> (r: bool)
    ensures
        r == exists|i: int| 0 <= i < turns@.len() && turn_reloaded_config(#[trigger] turns@[i]),
{
    let n = turns.len();
    let mut i: usize = 0;
    while i < n
        invariant
            n == turns@.len(),
            0 <= i <= n,
            forall|j: int| 0 <= j < i ==> !turn_reloaded_config(#[trigger] turns@[j]),
        decreases n - i,
    {
        let hit = match &turns[i] {
            RuntimeShutdownEventTurn::RegistryWatch { reload: Some(outcome), .. } => outcome.is_ok(),
            RuntimeShutdownEventTurn::DeferredRegistryReload { turn } => turn.outcome.is_ok(),
            RuntimeShutdownEventTurn::ControlConnection { supervisor, .. } => frames_reloaded_config(&supervisor.frames),
            _ => false,
        };
        if hit {
            assert(turn_reloaded_config(turns@[i as int]));
            return true;
        }
        i += 1;
    }
    false
}

} // verus!
