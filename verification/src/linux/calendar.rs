//! The calendar timers the runtime has armed, by the fd each one waits on.
use vstd::prelude::*;
use crate::event_loop::source::{RuntimeEventSource, RuntimeEventSourceDecodeError};
use crate::event_loop::model::{
    RegistrarCall, RuntimeEventRegistrar, RuntimeEventRegistrationError, answered_each, lemma_answered_push,
    lemma_answered_then_unregistered, unregister_calls, unregister_each,
};
use crate::model::deadline::SupervisorTimerDispatch;
use crate::model::turn::{RuntimeCalendarTimerTurn, TimerLastRunWriteOutcome};
use crate::event_loop::timing::{
    TimerJitterError, jittered_deadline_ns, rearm_anchor_ns, spec_jittered_deadline_ns, spec_rearm_anchor_ns,
};

verus! {

/// What reading a timerfd gave.
#[derive(Debug, Clone, Copy, PartialEq, Eq)]
pub enum LinuxTimerFdRead {
    /// Nothing to read: the wakeup was spurious.
    WouldBlock,
    /// The deadline passed.
    Expired { expirations: u64 },
    /// The wall clock was set, cancelling the absolute deadline.
    Canceled,
}

/// What a calendar timer's read calls for.
#[derive(Debug, Clone, Copy, PartialEq, Eq)]
pub enum CalendarTimerStep {
    /// Nothing happened.
    Nothing,
    /// The occurrence is due: fire it, then arm the first occurrence after
    /// `rearm_after_ns`.
    Fire { rearm_after_ns: u64 },
    /// The clock moved but did not reach the occurrence: arm the first
    /// occurrence after `after_ns` without firing.
    Rearm { after_ns: u64 },
}

/// Why a calendar timer could not be handled.
#[derive(Debug, Clone, Copy, PartialEq, Eq)]
pub enum LinuxCalendarTimerError {
    UnknownTimer { fd: i32 },
    Jitter(TimerJitterError),
}

pub open spec fn spec_calendar_timer_step(read: LinuxTimerFdRead, next_scheduled_ns: u64, jitter_secs: u64, realtime_now_ns: u64) -> CalendarTimerStep {
    match read {
        LinuxTimerFdRead::WouldBlock => CalendarTimerStep::Nothing,
        LinuxTimerFdRead::Expired { .. } => CalendarTimerStep::Fire {
            rearm_after_ns: spec_rearm_anchor_ns(next_scheduled_ns, jitter_secs, realtime_now_ns),
        },
        LinuxTimerFdRead::Canceled => if next_scheduled_ns <= realtime_now_ns {
            CalendarTimerStep::Fire { rearm_after_ns: spec_rearm_anchor_ns(next_scheduled_ns, jitter_secs, realtime_now_ns) }
        } else {
            CalendarTimerStep::Rearm { after_ns: realtime_now_ns }
        },
    }
}

/// What a timer's read calls for. An expiry fires the occurrence and
/// searches for the next from the rearm anchor, so a jittered firing never
/// skips the occurrence after it. A clock step fires only an occurrence it
/// carried the clock past; otherwise the timer is armed anew from the new
/// wall-clock time, the only sensible anchor there is.
pub fn calendar_timer_step(read: LinuxTimerFdRead, entry: &LinuxCalendarTimerEntry, realtime_now_ns: u64) -> (step: CalendarTimerStep)
    ensures
        step == spec_calendar_timer_step(read, entry.next_scheduled_ns, entry.jitter_secs, realtime_now_ns),
{
    match read {
        LinuxTimerFdRead::WouldBlock => CalendarTimerStep::Nothing,
        LinuxTimerFdRead::Expired { .. } => CalendarTimerStep::Fire {
            rearm_after_ns: rearm_anchor_ns(entry.next_scheduled_ns, entry.jitter_secs, realtime_now_ns),
        },
        LinuxTimerFdRead::Canceled => {
            if entry.next_scheduled_ns <= realtime_now_ns {
                CalendarTimerStep::Fire {
                    rearm_after_ns: rearm_anchor_ns(entry.next_scheduled_ns, entry.jitter_secs, realtime_now_ns),
                }
            } else {
                CalendarTimerStep::Rearm { after_ns: realtime_now_ns }
            }
        },
    }
}

/// One armed calendar timer.
#[derive(Debug, Clone, PartialEq, Eq)]
pub struct LinuxCalendarTimerEntry {
    pub fd: i32,
    pub service: String,
    pub schedule: String,
    /// `TimerPersistent`: whether a firing records its last run.
    pub persistent: bool,
    /// The occurrence the timer is armed for.
    pub next_scheduled_ns: u64,
    /// When it actually fires: the occurrence, delayed by its jitter.
    pub armed_deadline_ns: u64,
    pub jitter_secs: u64,
}

/// The armed timers. No two share an fd.
#[derive(Debug)]
pub struct LinuxCalendarTimerTable {
    entries: Vec<LinuxCalendarTimerEntry>,
}

/// The entry for `fd`, where there is one.
pub open spec fn entry_for(s: Seq<LinuxCalendarTimerEntry>, fd: i32) -> Option<LinuxCalendarTimerEntry>
    decreases s.len(),
{
    if s.len() == 0 {
        None
    } else if s.last().fd == fd {
        Some(s.last())
    } else {
        entry_for(s.drop_last(), fd)
    }
}

/// The service and schedule a timer fd belongs to.
pub open spec fn identity_of(s: Seq<LinuxCalendarTimerEntry>, fd: i32) -> Option<(String, String)> {
    match entry_for(s, fd) {
        Some(e) => Some((e.service, e.schedule)),
        None => None,
    }
}

pub open spec fn distinct_fds(s: Seq<LinuxCalendarTimerEntry>) -> bool {
    forall|i: int, j: int| 0 <= i < j < s.len() ==> #[trigger] s[i].fd != #[trigger] s[j].fd
}

proof fn lemma_entry_for(s: Seq<LinuxCalendarTimerEntry>, fd: i32)
    requires
        distinct_fds(s),
    ensures
        match entry_for(s, fd) {
            Some(e) => exists|i: int| 0 <= i < s.len() && #[trigger] s[i] == e && e.fd == fd,
            None => forall|i: int| 0 <= i < s.len() ==> (#[trigger] s[i]).fd != fd,
        },
        forall|i: int| 0 <= i < s.len() && (#[trigger] s[i]).fd == fd ==> entry_for(s, fd) == Some(s[i]),
    decreases s.len(),
{
    if s.len() > 0 {
        let t = s.drop_last();
        let last = s.len() - 1;
        assert forall|i: int| 0 <= i < t.len() implies #[trigger] t[i] == s[i] by {}
        assert forall|i: int, j: int| 0 <= i < j < t.len() implies #[trigger] t[i].fd != #[trigger] t[j].fd by {
            assert(t[i] == s[i] && t[j] == s[j]);
        }
        lemma_entry_for(t, fd);
        assert(s[last] == s.last());
        if s.last().fd == fd {
            assert(entry_for(s, fd) == Some(s[last]));
            assert forall|i: int| 0 <= i < s.len() && (#[trigger] s[i]).fd == fd implies entry_for(s, fd) == Some(s[i]) by {
                if i < last {
                    assert(s[i].fd != s[last].fd);
                }
            }
        } else {
            assert(entry_for(s, fd) == entry_for(t, fd));
            match entry_for(t, fd) {
                Some(e) => {
                    let w = choose|i: int| 0 <= i < t.len() && #[trigger] t[i] == e && e.fd == fd;
                    assert(s[w] == e);
                },
                None => {
                    assert forall|i: int| 0 <= i < s.len() implies (#[trigger] s[i]).fd != fd by {
                        if i < last {
                            assert(t[i] == s[i]);
                        }
                    }
                },
            }
            assert forall|i: int| 0 <= i < s.len() && (#[trigger] s[i]).fd == fd implies entry_for(s, fd) == Some(s[i]) by {
                assert(i != last);
                assert(t[i] == s[i]);
            }
        }
    }
}

impl LinuxCalendarTimerTable {
    pub closed spec fn view(&self) -> Seq<LinuxCalendarTimerEntry> {
        self.entries@
    }

    pub closed spec fn wf(&self) -> bool {
        distinct_fds(self.entries@)
    }

    pub fn new() -> (t: Self)
        ensures
            t.wf(),
            t.view() == Seq::<LinuxCalendarTimerEntry>::empty(),
    {
        LinuxCalendarTimerTable { entries: Vec::new() }
    }

    pub fn len(&self) -> (n: usize)
        ensures
            n == self.view().len(),
    {
        self.entries.len()
    }

    fn position(&self, fd: i32) -> (r: Option<usize>)
        requires
            self.wf(),
        ensures
            match r {
                Some(i) => i < self.view().len() && self.view()[i as int].fd == fd,
                None => forall|j: int| 0 <= j < self.view().len() ==> (#[trigger] self.view()[j]).fd != fd,
            },
    {
        let n = self.entries.len();
        let mut i: usize = 0;
        while i < n
            invariant
                n == self.entries@.len(),
                0 <= i <= n,
                forall|j: int| 0 <= j < i ==> (#[trigger] self.entries@[j]).fd != fd,
            decreases n - i,
        {
            if self.entries[i].fd == fd {
                return Some(i);
            }
            i += 1;
        }
        None
    }

    /// The service and schedule a timer fd belongs to: what names a failed
    /// last-run write, which knows only its child's pid and the fd whose
    /// firing forked it.
    pub fn identity_for(&self, fd: i32) -> (r: Option<(String, String)>)
        requires
            self.wf(),
        ensures
            r == identity_of(self.view(), fd),
    {
        proof {
            lemma_entry_for(self.entries@, fd);
        }
        match self.position(fd) {
            Some(i) => {
                let e = &self.entries[i];
                Some((e.service.clone(), e.schedule.clone()))
            },
            None => None,
        }
    }

    /// Arm a timer, replacing any entry on the same fd.
    pub fn insert(&mut self, entry: LinuxCalendarTimerEntry)
        requires
            old(self).wf(),
        ensures
            final(self).wf(),
            entry_for(final(self).view(), entry.fd) == Some(entry),
            forall|fd: i32| fd != entry.fd ==> #[trigger] entry_for(final(self).view(), fd) == entry_for(old(self).view(), fd),
    {
        let ghost before = self.entries@;
        proof {
            lemma_entry_for(before, entry.fd);
        }
        let ghost mut at: int = 0;
        match self.position(entry.fd) {
            Some(i) => {
                self.entries.set(i, entry);
                assert(self.entries@ == before.update(i as int, entry));
                proof { at = i as int; }
            },
            None => {
                self.entries.push(entry);
                assert(self.entries@ == before.push(entry));
                proof { at = before.len() as int; }
            },
        }
        let ghost after = self.entries@;
        assert forall|a: int, b: int| 0 <= a < b < after.len() implies #[trigger] after[a].fd != #[trigger] after[b].fd by {
            if a < before.len() && b < before.len() {
            }
        }
        proof {
            lemma_entry_for(after, entry.fd);
            assert forall|fd: i32| fd != entry.fd implies #[trigger] entry_for(after, fd) == entry_for(before, fd) by {
                lemma_entry_for(after, fd);
                lemma_entry_for(before, fd);
                match entry_for(before, fd) {
                    Some(e) => {
                        let w = choose|k: int| 0 <= k < before.len() && #[trigger] before[k] == e && e.fd == fd;
                        assert(after[w] == before[w]);
                    },
                    None => {
                        match entry_for(after, fd) {
                            Some(e) => {
                                let w = choose|k: int| 0 <= k < after.len() && #[trigger] after[k] == e && e.fd == fd;
                                assert(w < before.len() && after[w] == before[w]);
                            },
                            None => {},
                        }
                    },
                }
            }
            assert(after[at] == entry);
        }
    }

    /// Disarm the timer on `fd`, handing its entry back.
    pub fn remove(&mut self, fd: i32) -> (r: Option<LinuxCalendarTimerEntry>)
        requires
            old(self).wf(),
        ensures
            final(self).wf(),
            r == entry_for(old(self).view(), fd),
            entry_for(final(self).view(), fd) is None,
            forall|other: i32| other != fd ==> #[trigger] entry_for(final(self).view(), other) == entry_for(old(self).view(), other),
    {
        let ghost before = self.entries@;
        proof {
            lemma_entry_for(before, fd);
        }
        match self.position(fd) {
            Some(i) => {
                let e = self.entries.remove(i);
                let ghost after = self.entries@;
                assert(after == before.remove(i as int));
                assert forall|a: int, b: int| 0 <= a < b < after.len() implies #[trigger] after[a].fd != #[trigger] after[b].fd by {
                    let a0 = if a < i { a } else { a + 1 };
                    let b0 = if b < i { b } else { b + 1 };
                    assert(after[a] == before[a0] && after[b] == before[b0]);
                }
                proof {
                    lemma_entry_for(after, fd);
                    assert forall|j: int| 0 <= j < after.len() implies (#[trigger] after[j]).fd != fd by {
                        let j0 = if j < i { j } else { j + 1 };
                        assert(after[j] == before[j0]);
                    }
                    assert forall|other: i32| other != fd implies #[trigger] entry_for(after, other) == entry_for(before, other) by {
                        lemma_entry_for(after, other);
                        lemma_entry_for(before, other);
                        match entry_for(before, other) {
                            Some(x) => {
                                let w = choose|k: int| 0 <= k < before.len() && #[trigger] before[k] == x && x.fd == other;
                                let w1 = if w < i { w } else { w - 1 };
                                assert(w != i);
                                assert(after[w1] == before[w]);
                            },
                            None => {
                                match entry_for(after, other) {
                                    Some(x) => {
                                        let w = choose|k: int| 0 <= k < after.len() && #[trigger] after[k] == x && x.fd == other;
                                        let w0 = if w < i { w } else { w + 1 };
                                        assert(after[w] == before[w0]);
                                    },
                                    None => {},
                                }
                            },
                        }
                    }
                }
                Some(e)
            },
            None => None,
        }
    }

    /// What the read of the timer on `fd` calls for.
    pub fn step_for(&self, fd: i32, read: LinuxTimerFdRead, realtime_now_ns: u64) -> (r: Result<CalendarTimerStep, LinuxCalendarTimerError>)
        requires
            self.wf(),
        ensures
            match entry_for(self.view(), fd) {
                None => r == Err::<CalendarTimerStep, LinuxCalendarTimerError>(LinuxCalendarTimerError::UnknownTimer { fd }),
                Some(e) => r == Ok::<CalendarTimerStep, LinuxCalendarTimerError>(
                    spec_calendar_timer_step(read, e.next_scheduled_ns, e.jitter_secs, realtime_now_ns),
                ),
            },
    {
        proof {
            lemma_entry_for(self.entries@, fd);
        }
        match self.position(fd) {
            Some(i) => Ok(calendar_timer_step(read, &self.entries[i], realtime_now_ns)),
            None => Err(LinuxCalendarTimerError::UnknownTimer { fd }),
        }
    }

    /// Arm a timer for its next occurrence: the occurrence the schedule gives
    /// after the anchor, delayed by `random` within the timer's jitter. The
    /// entry records both; the armed deadline comes back for the host to set
    /// on the timerfd.
    pub fn rearm(&mut self, fd: i32, next_scheduled_ns: u64, random: u64) -> (r: Result<u64, LinuxCalendarTimerError>)
        requires
            old(self).wf(),
        ensures
            final(self).wf(),
            match entry_for(old(self).view(), fd) {
                None => r == Err::<u64, LinuxCalendarTimerError>(LinuxCalendarTimerError::UnknownTimer { fd })
                    && final(self).view() == old(self).view(),
                Some(e) => match spec_jittered_deadline_ns(next_scheduled_ns, e.jitter_secs, random) {
                    Err(j) => r == Err::<u64, LinuxCalendarTimerError>(LinuxCalendarTimerError::Jitter(j))
                        && final(self).view() == old(self).view(),
                    Ok(armed) => r == Ok::<u64, LinuxCalendarTimerError>(armed)
                        && entry_for(final(self).view(), fd) == Some(LinuxCalendarTimerEntry {
                            next_scheduled_ns,
                            armed_deadline_ns: armed,
                            ..e
                        })
                        && forall|other: i32| other != fd ==> #[trigger] entry_for(final(self).view(), other)
                            == entry_for(old(self).view(), other),
                },
            },
    {
        proof {
            lemma_entry_for(self.entries@, fd);
        }
        let i = match self.position(fd) {
            Some(i) => i,
            None => return Err(LinuxCalendarTimerError::UnknownTimer { fd }),
        };
        let jitter_secs = self.entries[i].jitter_secs;
        let armed = match jittered_deadline_ns(next_scheduled_ns, jitter_secs, random) {
            Ok(armed) => armed,
            Err(j) => return Err(LinuxCalendarTimerError::Jitter(j)),
        };
        let old_entry = &self.entries[i];
        let entry = LinuxCalendarTimerEntry {
            fd: old_entry.fd,
            service: old_entry.service.clone(),
            schedule: old_entry.schedule.clone(),
            persistent: old_entry.persistent,
            next_scheduled_ns,
            armed_deadline_ns: armed,
            jitter_secs: old_entry.jitter_secs,
        };
        self.insert(entry);
        Ok(armed)
    }
}

/// The turn a calendar timer that missed its firing while the machine was
/// down gets at boot, run as though its timerfd had expired once: the
/// supervisor's dispatch of the firing, the last-run write that was queued
/// for it, and the next occurrence it was armed for. A source that is not a
/// calendar timer gets none.
pub fn boot_catch_up_turn(
    source: RuntimeEventSource,
    next_scheduled_ns: u64,
    dispatch: SupervisorTimerDispatch,
    last_run_write: Result<TimerLastRunWriteOutcome, String>,
) -> (t: Option<(i32, RuntimeCalendarTimerTurn)>)
    ensures
        match source {
            RuntimeEventSource::CalendarTimer { fd } => t == Some((
                fd,
                RuntimeCalendarTimerTurn {
                    supervisor: Some(Box::new(dispatch)),
                    last_run_write: Some(last_run_write),
                    next_scheduled_ns: Some(next_scheduled_ns),
                },
            )),
            _ => t is None,
        },
{
    match source {
        RuntimeEventSource::CalendarTimer { fd } => Some((
            fd,
            RuntimeCalendarTimerTurn {
                supervisor: Some(Box::new(dispatch)),
                last_run_write: Some(last_run_write),
                next_scheduled_ns: Some(next_scheduled_ns),
            },
        )),
        _ => None,
    }
}

/// Why a reload could not put its timers in place of the armed ones.
#[derive(Debug, Clone, PartialEq, Eq)]
pub enum LinuxCalendarTimerReloadError {
    /// A replacement timer's descriptor cannot name a source.
    Source(RuntimeEventSourceDecodeError),
    /// The registrar refused to add a replacement or to drop an armed timer.
    Register(RuntimeEventRegistrationError),
}

/// The descriptors of `s`, in order.
pub open spec fn fds_of(s: Seq<LinuxCalendarTimerEntry>) -> Seq<i32> {
    s.map_values(|e: LinuxCalendarTimerEntry| e.fd)
}

/// The requests to wait on each timer of `s`, in order.
pub open spec fn register_calls(s: Seq<LinuxCalendarTimerEntry>) -> Seq<RegistrarCall> {
    s.map_values(|e: LinuxCalendarTimerEntry| RegistrarCall::Register { fd: e.fd, source: RuntimeEventSource::CalendarTimer { fd: e.fd } })
}

/// Whether the first `k` replacements were each added: a descriptor that
/// names a source, which the registrar took.
pub open spec fn added_before(
    replacement: Seq<LinuxCalendarTimerEntry>,
    answers: Seq<Result<(), RuntimeEventRegistrationError>>,
    k: int,
) -> bool {
    forall|j: int| 0 <= j < k ==> (#[trigger] replacement[j]).fd >= 0 && answers[j] is Ok
}

/// What a reload of the armed timers `armed` by `replacement` comes to, when
/// the registrar was asked `calls` and answered `answers`: all or nothing.
/// Each replacement is added in turn; at the first that cannot be (a
/// negative descriptor, or a refusal) the ones added so far are dropped
/// again, the armed timers stay and the error says why. Then each armed
/// timer is dropped; at the first refusal every replacement is dropped again
/// and the armed timers stay. Otherwise the replacements are the timers,
/// and the sources to wait on are theirs.
pub open spec fn reload_outcome(
    armed: Seq<LinuxCalendarTimerEntry>,
    replacement: Seq<LinuxCalendarTimerEntry>,
    calls: Seq<RegistrarCall>,
    answers: Seq<Result<(), RuntimeEventRegistrationError>>,
    r: Result<Seq<RuntimeEventSource>, LinuxCalendarTimerReloadError>,
    after: Seq<LinuxCalendarTimerEntry>,
) -> bool {
    let n = replacement.len() as int;
    ||| exists|k: int| #![trigger replacement[k]] {
        &&& 0 <= k < n && added_before(replacement, answers, k)
        &&& replacement[k].fd < 0
        &&& calls == register_calls(replacement.take(k)) + unregister_calls(fds_of(replacement.take(k)))
        &&& r == Err::<Seq<RuntimeEventSource>, LinuxCalendarTimerReloadError>(
            LinuxCalendarTimerReloadError::Source(RuntimeEventSourceDecodeError::NegativeDescriptor { fd: replacement[k].fd }),
        )
        &&& after == armed
    }
    ||| exists|k: int| #![trigger answers[k]] {
        &&& 0 <= k < n && added_before(replacement, answers, k)
        &&& replacement[k].fd >= 0 && answers[k] is Err
        &&& calls == register_calls(replacement.take(k + 1)) + unregister_calls(fds_of(replacement.take(k)))
        &&& r == Err::<Seq<RuntimeEventSource>, LinuxCalendarTimerReloadError>(
            LinuxCalendarTimerReloadError::Register(answers[k]->Err_0),
        )
        &&& after == armed
    }
    ||| exists|i: int| #![trigger answers[i]] {
        &&& n <= i < n + armed.len() && added_before(replacement, answers, n)
        &&& forall|j: int| n <= j < i ==> (#[trigger] answers[j]) is Ok
        &&& answers[i] is Err
        &&& calls == register_calls(replacement) + unregister_calls(fds_of(armed.take(i - n + 1)))
            + unregister_calls(fds_of(replacement))
        &&& r == Err::<Seq<RuntimeEventSource>, LinuxCalendarTimerReloadError>(
            LinuxCalendarTimerReloadError::Register(answers[i]->Err_0),
        )
        &&& after == armed
    }
    ||| {
        &&& added_before(replacement, answers, n)
        &&& forall|j: int| n <= j < n + armed.len() ==> (#[trigger] answers[j]) is Ok
        &&& calls == register_calls(replacement) + unregister_calls(fds_of(armed))
        &&& r == Ok::<Seq<RuntimeEventSource>, LinuxCalendarTimerReloadError>(
            replacement.map_values(|e: LinuxCalendarTimerEntry| RuntimeEventSource::CalendarTimer { fd: e.fd }),
        )
        &&& after == replacement
    }
}

/// The descriptors of the first `upto` entries.
fn entry_fds(entries: &Vec<LinuxCalendarTimerEntry>, upto: usize) -> (v: Vec<i32>)
    requires
        upto <= entries@.len(),
    ensures
        v@ == fds_of(entries@.take(upto as int)),
{
    let mut v: Vec<i32> = Vec::new();
    let mut i: usize = 0;
    while i < upto
        invariant
            upto <= entries@.len(),
            0 <= i <= upto,
            v@ == fds_of(entries@.take(i as int)),
        decreases upto - i,
    {
        v.push(entries[i].fd);
        assert(fds_of(entries@.take(i + 1)) =~= fds_of(entries@.take(i as int)).push(entries@[i as int].fd));
        i += 1;
    }
    v
}

/// A reload's result, by the view of the sources it returns.
pub open spec fn reload_result_view(
    r: Result<Vec<RuntimeEventSource>, LinuxCalendarTimerReloadError>,
) -> Result<Seq<RuntimeEventSource>, LinuxCalendarTimerReloadError> {
    match r {
        Ok(v) => Ok(v@),
        Err(e) => Err(e),
    }
}

impl LinuxCalendarTimerTable {
    /// Put a reload's timers in place of the armed ones, all or nothing, as
    /// `reload_outcome` says. The replacements are timers the host created
    /// and armed for the reload, so no two share a descriptor.
    pub fn reconfigure_timers<R: RuntimeEventRegistrar>(&mut self, replacement: Vec<LinuxCalendarTimerEntry>, registrar: &mut R) -> (r: Result<
        Vec<RuntimeEventSource>,
        LinuxCalendarTimerReloadError,
    >)
        requires
            old(self).wf(),
            distinct_fds(replacement@),
        ensures
            final(self).wf(),
            exists|calls: Seq<RegistrarCall>, states: Seq<R>, answers: Seq<Result<(), RuntimeEventRegistrationError>>|
                #[trigger] answered_each(*old(registrar), *final(registrar), calls, states, answers) && reload_outcome(
                    old(self).view(),
                    replacement@,
                    calls,
                    answers,
                    reload_result_view(r),
                    final(self).view(),
                ),
    {
        let ghost armed_view = self.entries@;
        let ghost reg0 = *registrar;
        let ghost mut calls: Seq<RegistrarCall> = Seq::empty();
        let ghost mut states: Seq<R> = seq![*registrar];
        let ghost mut answers: Seq<Result<(), RuntimeEventRegistrationError>> = Seq::empty();
        let n = replacement.len();
        let mut sources: Vec<RuntimeEventSource> = Vec::new();
        let mut i: usize = 0;
        while i < n
            invariant
                n == replacement@.len(),
                0 <= i <= n,
                self.entries@ == armed_view,
                self.wf(),
                reg0 == *old(registrar),
                calls == register_calls(replacement@.take(i as int)),
                answered_each(reg0, *registrar, calls, states, answers),
                answers.len() == i,
                added_before(replacement@, answers, i as int),
                sources@ == replacement@.take(i as int).map_values(
                    |e: LinuxCalendarTimerEntry| RuntimeEventSource::CalendarTimer { fd: e.fd },
                ),
            decreases n - i,
        {
            let fd = replacement[i].fd;
            let source = match RuntimeEventSource::calendar_timer(fd) {
                Ok(source) => source,
                Err(e) => {
                    let fds = entry_fds(&replacement, i);
                    let ghost mid = *registrar;
                    unregister_each(registrar, &fds);
                    proof {
                        let (s2, a2) = choose|s2: Seq<R>, a2: Seq<Result<(), RuntimeEventRegistrationError>>|
                            crate::event_loop::model::unregistered_each(mid, *registrar, fds@, s2, a2);
                        lemma_answered_then_unregistered(reg0, mid, *registrar, calls, states, answers, fds@, s2, a2);
                        let answers2 = answers + a2;
                        assert forall|j: int| 0 <= j < i implies (#[trigger] replacement@[j]).fd >= 0 && answers2[j] is Ok by {
                            assert(answers2[j] == answers[j]);
                        }
                        assert(added_before(replacement@, answers2, i as int));
                        assert(replacement@[i as int].fd < 0);
                    }
                    return Err(LinuxCalendarTimerReloadError::Source(e));
                },
            };
            let ghost before = *registrar;
            let answer = registrar.register_source(fd, source);
            proof {
                let call = RegistrarCall::Register { fd, source };
                assert(crate::event_loop::model::answers_call(before, *registrar, call, answer));
                lemma_answered_push(reg0, before, *registrar, calls, states, answers, call, answer);
                assert(register_calls(replacement@.take(i + 1)) =~= register_calls(replacement@.take(i as int)).push(call));
                calls = calls.push(call);
                states = states.push(*registrar);
                answers = answers.push(answer);
            }
            match answer {
                Ok(()) => {
                    sources.push(source);
                    proof {
                        assert(replacement@.take(i + 1).map_values(
                            |e: LinuxCalendarTimerEntry| RuntimeEventSource::CalendarTimer { fd: e.fd },
                        ) =~= replacement@.take(i as int).map_values(
                            |e: LinuxCalendarTimerEntry| RuntimeEventSource::CalendarTimer { fd: e.fd },
                        ).push(source));
                        assert forall|j: int| 0 <= j < i + 1 implies (#[trigger] replacement@[j]).fd >= 0 && answers[j] is Ok by {
                            if j < i {
                                assert(answers[j] == answers.drop_last()[j]);
                            }
                        }
                    }
                },
                Err(e) => {
                    let fds = entry_fds(&replacement, i);
                    let ghost mid = *registrar;
                    unregister_each(registrar, &fds);
                    proof {
                        let (s2, a2) = choose|s2: Seq<R>, a2: Seq<Result<(), RuntimeEventRegistrationError>>|
                            crate::event_loop::model::unregistered_each(mid, *registrar, fds@, s2, a2);
                        lemma_answered_then_unregistered(reg0, mid, *registrar, calls, states, answers, fds@, s2, a2);
                        let answers2 = answers + a2;
                        assert forall|j: int| 0 <= j < i implies (#[trigger] replacement@[j]).fd >= 0 && answers2[j] is Ok by {
                            assert(answers2[j] == answers[j]);
                            assert(answers[j] == answers.drop_last()[j]);
                        }
                        assert(added_before(replacement@, answers2, i as int));
                        assert(answers2[i as int] == answer);
                    }
                    return Err(LinuxCalendarTimerReloadError::Register(e));
                },
            }
            i += 1;
        }
        proof {
            assert(replacement@.take(n as int) =~= replacement@);
        }
        let armed = entry_fds(&self.entries, self.entries.len());
        proof {
            assert(armed_view.take(armed_view.len() as int) =~= armed_view);
        }
        let m = armed.len();
        let mut j: usize = 0;
        while j < m
            invariant
                n == replacement@.len(),
                m == armed@.len(),
                armed@ == fds_of(armed_view),
                0 <= j <= m,
                self.entries@ == armed_view,
                self.wf(),
                distinct_fds(replacement@),
                reg0 == *old(registrar),
                calls == register_calls(replacement@) + unregister_calls(armed@.take(j as int)),
                answered_each(reg0, *registrar, calls, states, answers),
                answers.len() == n + j,
                added_before(replacement@, answers, n as int),
                forall|k: int| n <= k < n + j ==> (#[trigger] answers[k]) is Ok,
                sources@ == replacement@.map_values(
                    |e: LinuxCalendarTimerEntry| RuntimeEventSource::CalendarTimer { fd: e.fd },
                ),
            decreases m - j,
        {
            let ghost before = *registrar;
            let answer = registrar.unregister_source(armed[j]);
            proof {
                let call = RegistrarCall::Unregister { fd: armed@[j as int] };
                assert(crate::event_loop::model::answers_call(before, *registrar, call, answer));
                lemma_answered_push(reg0, before, *registrar, calls, states, answers, call, answer);
                assert(unregister_calls(armed@.take(j + 1)) =~= unregister_calls(armed@.take(j as int)).push(call));
                assert(register_calls(replacement@) + unregister_calls(armed@.take(j + 1)) =~= calls.push(call));
                let a0 = answers;
                calls = calls.push(call);
                states = states.push(*registrar);
                answers = answers.push(answer);
                assert forall|k: int| 0 <= k < n implies (#[trigger] replacement@[k]).fd >= 0 && answers[k] is Ok by {
                    assert(answers[k] == a0[k]);
                }
                assert forall|k: int| n <= k < n + j implies (#[trigger] answers[k]) is Ok by {
                    assert(answers[k] == a0[k]);
                }
            }
            match answer {
                Ok(()) => {},
                Err(e) => {
                    let fds = entry_fds(&replacement, n);
                    let ghost mid = *registrar;
                    unregister_each(registrar, &fds);
                    proof {
                        let (s2, a2) = choose|s2: Seq<R>, a2: Seq<Result<(), RuntimeEventRegistrationError>>|
                            crate::event_loop::model::unregistered_each(mid, *registrar, fds@, s2, a2);
                        lemma_answered_then_unregistered(reg0, mid, *registrar, calls, states, answers, fds@, s2, a2);
                        let answers2 = answers + a2;
                        assert forall|k: int| 0 <= k < n implies (#[trigger] replacement@[k]).fd >= 0 && answers2[k] is Ok by {
                            assert(answers2[k] == answers[k]);
                        }
                        assert forall|k: int| n <= k < n + j implies (#[trigger] answers2[k]) is Ok by {
                            assert(answers2[k] == answers[k]);
                        }
                        assert(answers2[n + j] == answer);
                        assert(replacement@.take(n as int) =~= replacement@);
                        assert(fds_of(armed_view.take(j + 1)) =~= armed@.take(j + 1));
                        let i0: int = n + j;
                        assert(i0 - n + 1 == j + 1);
                    }
                    return Err(LinuxCalendarTimerReloadError::Register(e));
                },
            }
            j += 1;
        }
        proof {
            assert(armed@.take(m as int) =~= armed@);
        }
        self.entries = replacement;
        Ok(sources)
    }
}

/// A reload is all or nothing: it succeeds and the timers are the
/// replacements, or it fails and the armed timers are kept as they were.
pub proof fn law_reload_is_all_or_nothing(
    armed: Seq<LinuxCalendarTimerEntry>,
    replacement: Seq<LinuxCalendarTimerEntry>,
    calls: Seq<RegistrarCall>,
    answers: Seq<Result<(), RuntimeEventRegistrationError>>,
    r: Result<Seq<RuntimeEventSource>, LinuxCalendarTimerReloadError>,
    after: Seq<LinuxCalendarTimerEntry>,
)
    requires
        reload_outcome(armed, replacement, calls, answers, r, after),
    ensures
        r is Ok ==> after == replacement,
        r is Err ==> after == armed,
{
}

/// A failed reload leaves nothing of itself registered: every replacement
/// the registrar was asked to add, it is asked to drop again afterwards.
pub proof fn law_failed_reload_drops_its_replacements(
    armed: Seq<LinuxCalendarTimerEntry>,
    replacement: Seq<LinuxCalendarTimerEntry>,
    calls: Seq<RegistrarCall>,
    answers: Seq<Result<(), RuntimeEventRegistrationError>>,
    r: Result<Seq<RuntimeEventSource>, LinuxCalendarTimerReloadError>,
    after: Seq<LinuxCalendarTimerEntry>,
    i: int,
)
    requires
        reload_outcome(armed, replacement, calls, answers, r, after),
        r is Err,
        0 <= i < calls.len(),
        calls[i] is Register,
        answers[i] is Ok,
    ensures
        exists|j: int| i < j < calls.len() && #[trigger] calls[j] == (RegistrarCall::Unregister { fd: calls[i]->Register_fd }),
{
    let n = replacement.len() as int;
    if exists|k: int| #![trigger replacement[k]] {
        &&& 0 <= k < n && added_before(replacement, answers, k)
        &&& replacement[k].fd < 0
        &&& calls == register_calls(replacement.take(k)) + unregister_calls(fds_of(replacement.take(k)))
    } {
        let k = choose|k: int| #![trigger replacement[k]] {
            &&& 0 <= k < n && added_before(replacement, answers, k)
            &&& replacement[k].fd < 0
            &&& calls == register_calls(replacement.take(k)) + unregister_calls(fds_of(replacement.take(k)))
        };
        assert(i < k);
        assert(calls[i] == register_calls(replacement.take(k))[i]);
        assert(calls[k + i] == unregister_calls(fds_of(replacement.take(k)))[i]);
    } else if exists|k: int| #![trigger answers[k]] {
        &&& 0 <= k < n && added_before(replacement, answers, k)
        &&& replacement[k].fd >= 0 && answers[k] is Err
        &&& calls == register_calls(replacement.take(k + 1)) + unregister_calls(fds_of(replacement.take(k)))
    } {
        let k = choose|k: int| #![trigger answers[k]] {
            &&& 0 <= k < n && added_before(replacement, answers, k)
            &&& replacement[k].fd >= 0 && answers[k] is Err
            &&& calls == register_calls(replacement.take(k + 1)) + unregister_calls(fds_of(replacement.take(k)))
        };
        assert(i < k);
        assert(calls[i] == register_calls(replacement.take(k + 1))[i]);
        assert(calls[k + 1 + i] == unregister_calls(fds_of(replacement.take(k)))[i]);
    } else {
        let i0 = choose|i0: int| #![trigger answers[i0]] {
            &&& n <= i0 < n + armed.len() && added_before(replacement, answers, n)
            &&& forall|j: int| n <= j < i0 ==> (#[trigger] answers[j]) is Ok
            &&& answers[i0] is Err
            &&& calls == register_calls(replacement) + unregister_calls(fds_of(armed.take(i0 - n + 1)))
                + unregister_calls(fds_of(replacement))
            &&& r == Err::<Seq<RuntimeEventSource>, LinuxCalendarTimerReloadError>(
                LinuxCalendarTimerReloadError::Register(answers[i0]->Err_0),
            )
            &&& after == armed
        };
        let base = n + (i0 - n + 1);
        assert(i < n);
        assert(calls[i] == register_calls(replacement)[i]);
        assert(calls[base + i] == unregister_calls(fds_of(replacement))[i]);
    }
}

} // verus!
