//! Emitting a turn's audit records one at a time, containing the refusal of
//! any one of them.
use vstd::prelude::*;
use vstd::string::*;
use crate::seqs::opt_view;
use crate::text::{append_string, append_decimal, decimal};
use crate::boundary::BoundaryError;
use crate::kmes::event::{KmesEvent, KmesEventView, events_view, clone_opt_string};
use crate::kmes::turn::{runtime_loop_recs, collect_runtime_loop_kmes_events};
use crate::event_loop::model::RuntimeShutdownLoopError;
use crate::model::deadline::SupervisorOperationMaintenanceTurn;
use crate::model::turn::{RuntimeWorkPumpTurn, RuntimeShutdownEventTurn, RuntimeCalendarTimerTurn};

verus! {

/// The ring the records go to.
pub trait KmesEventSink: Sized {
    /// Whether handing `event` to the sink in state `before`, answered with
    /// `answer`, leaves it in state `after`: what an implementation records
    /// of what it was handed. One that says nothing of it keeps the default,
    /// which holds of every call.
    open spec fn hands(before: Self, after: Self, event: KmesEventView, answer: Result<(), BoundaryError>) -> bool {
        true
    }

    fn emit_kmes_event(&mut self, event: &KmesEvent) -> (r: Result<(), BoundaryError>)
        ensures
            Self::hands(*old(self), *final(self), event@, r),
    ;
}

/// An event the ring refused, dropped in its place.
#[derive(Debug, Clone, PartialEq, Eq)]
pub struct DroppedKmesEvent {
    pub event_type: String,
    pub service: Option<String>,
    pub job_id: Option<u64>,
    /// What `{:?}` shows of the ring's error.
    pub error: String,
    /// How many events this boot has dropped, this one included.
    pub dropped_total: u64,
}

/// A dropped event, by the views of its fields.
pub struct DroppedKmesEventView {
    pub event_type: Seq<char>,
    pub service: Option<Seq<char>>,
    pub job_id: Option<u64>,
    pub error: Seq<char>,
    pub dropped_total: u64,
}

impl View for DroppedKmesEvent {
    type V = DroppedKmesEventView;

    open spec fn view(&self) -> DroppedKmesEventView {
        DroppedKmesEventView {
            event_type: self.event_type@,
            service: opt_view(self.service),
            job_id: self.job_id,
            error: self.error@,
            dropped_total: self.dropped_total,
        }
    }
}

pub open spec fn drops_view(s: Seq<DroppedKmesEvent>) -> Seq<DroppedKmesEventView> {
    s.map_values(|d: DroppedKmesEvent| d@)
}

/// What the gap says: which event was dropped, whose it was, why, and how
/// many this boot has lost.
pub open spec fn gap_text(d: DroppedKmesEventView) -> Seq<char> {
    "dropped event "@ + d.event_type + (match d.service {
        Some(s) => " for service "@ + s,
        None => Seq::empty(),
    }) + (match d.job_id {
        Some(j) => " (job "@ + decimal(j as nat) + ")"@,
        None => Seq::empty(),
    }) + ": "@ + d.error + " ("@ + decimal(d.dropped_total as nat) + " dropped this boot)"@
}

pub open spec fn oversized_text(d: DroppedKmesEvent) -> Seq<char> {
    gap_text(d@)
}

/// The record of a refused event: the event's type and subject, the ring's
/// error, and the boot's count of drops with it.
pub open spec fn refusal_record(e: KmesEventView, error: BoundaryError, dropped_total: u64) -> DroppedKmesEventView {
    DroppedKmesEventView {
        event_type: e.event_type,
        service: e.service,
        job_id: e.job_id,
        error: error.spec_debug(),
        dropped_total,
    }
}

/// The small `event.oversized` record that takes a dropped event's place.
pub open spec fn gap_record(d: DroppedKmesEventView) -> KmesEventView {
    KmesEventView { event_type: "event.oversized"@, service: d.service, job_id: d.job_id, detail: gap_text(d) }
}

/// How far emitting a batch got: the records handed to the sink and its
/// answers, in order; the drops; the boot's count of drops; and the ring's
/// error if it refused a gap record too.
pub struct KmesEmission {
    pub handed: Seq<KmesEventView>,
    pub answers: Seq<Result<(), BoundaryError>>,
    pub dropped: Seq<DroppedKmesEventView>,
    pub count: u64,
    pub failed: Option<BoundaryError>,
}

/// Emitting `events` one at a time, from `base` drops, when the sink
/// answers each event, and each gap record, as `replies` says (the second
/// answer of a pair is the gap record's, where there is one). Every event is
/// handed over in order; one the ring refuses is dropped and its gap record
/// handed over after it; a refused gap record ends the emission.
pub open spec fn emission(
    events: Seq<KmesEventView>,
    replies: Seq<(Result<(), BoundaryError>, Result<(), BoundaryError>)>,
    base: u64,
) -> KmesEmission
    decreases events.len(),
{
    if events.len() == 0 {
        KmesEmission { handed: Seq::empty(), answers: Seq::empty(), dropped: Seq::empty(), count: base, failed: None }
    } else {
        let prev = emission(events.drop_last(), replies.drop_last(), base);
        if prev.failed is Some {
            prev
        } else {
            let e = events.last();
            let reply = replies.last();
            match reply.0 {
                Ok(()) => KmesEmission {
                    handed: prev.handed.push(e),
                    answers: prev.answers.push(reply.0),
                    dropped: prev.dropped,
                    count: prev.count,
                    failed: None,
                },
                Err(error) => {
                    let d = refusal_record(e, error, (prev.count + 1) as u64);
                    KmesEmission {
                        handed: prev.handed.push(e).push(gap_record(d)),
                        answers: prev.answers.push(reply.0).push(reply.1),
                        dropped: if reply.1 is Ok { prev.dropped.push(d) } else { prev.dropped },
                        count: (prev.count + 1) as u64,
                        failed: match reply.1 {
                            Ok(()) => None,
                            Err(ring) => Some(ring),
                        },
                    }
                },
            }
        }
    }
}

/// The sink went from `states[0]` to its last state by being handed each
/// record of `handed` in turn, with the matching answer.
pub open spec fn sink_went_through<S: KmesEventSink>(
    states: Seq<S>,
    handed: Seq<KmesEventView>,
    answers: Seq<Result<(), BoundaryError>>,
) -> bool {
    &&& states.len() == handed.len() + 1
    &&& answers.len() == handed.len()
    &&& forall|k: int| 0 <= k < handed.len() ==> S::hands(states[k], states[k + 1], #[trigger] handed[k], answers[k])
}

/// The sink went from `before` to `after` by being handed what emitting
/// `events` from `base` drops hands it, when it answers as `replies` says.
pub open spec fn sink_handed<S: KmesEventSink>(
    before: S,
    after: S,
    events: Seq<KmesEventView>,
    base: u64,
    replies: Seq<(Result<(), BoundaryError>, Result<(), BoundaryError>)>,
    states: Seq<S>,
) -> bool {
    &&& replies.len() == events.len()
    &&& states.len() > 0
    &&& states[0] == before
    &&& states.last() == after
    &&& sink_went_through(states, emission(events, replies, base).handed, emission(events, replies, base).answers)
}

/// What emitting returns for an emission: the drops when it ran through, the
/// ring's error when a gap record was refused.
pub open spec fn emission_result(st: KmesEmission, r: Result<Vec<DroppedKmesEvent>, RuntimeShutdownLoopError>) -> bool {
    match r {
        Ok(d) => st.failed is None && drops_view(d@) == st.dropped,
        Err(e) => st.failed is Some && e == RuntimeShutdownLoopError::Kmes(st.failed->Some_0),
    }
}

proof fn lemma_emission_step(
    events: Seq<KmesEventView>,
    replies: Seq<(Result<(), BoundaryError>, Result<(), BoundaryError>)>,
    base: u64,
    i: int,
)
    requires
        0 <= i < events.len(),
        replies.len() == i + 1,
    ensures
        emission(events.take(i + 1), replies, base) == ({
            let prev = emission(events.take(i), replies.drop_last(), base);
            if prev.failed is Some {
                prev
            } else {
                let e = events[i];
                let reply = replies.last();
                match reply.0 {
                    Ok(()) => KmesEmission {
                        handed: prev.handed.push(e),
                        answers: prev.answers.push(reply.0),
                        dropped: prev.dropped,
                        count: prev.count,
                        failed: None,
                    },
                    Err(error) => {
                        let d = refusal_record(e, error, (prev.count + 1) as u64);
                        KmesEmission {
                            handed: prev.handed.push(e).push(gap_record(d)),
                            answers: prev.answers.push(reply.0).push(reply.1),
                            dropped: if reply.1 is Ok { prev.dropped.push(d) } else { prev.dropped },
                            count: (prev.count + 1) as u64,
                            failed: match reply.1 {
                                Ok(()) => None,
                                Err(ring) => Some(ring),
                            },
                        }
                    },
                }
            }
        }),
{
    assert(events.take(i + 1).drop_last() =~= events.take(i));
    assert(events.take(i + 1).last() == events[i]);
}

/// Once the ring refused a gap record, nothing more is handed over.
proof fn lemma_emission_stops(
    events: Seq<KmesEventView>,
    replies: Seq<(Result<(), BoundaryError>, Result<(), BoundaryError>)>,
    base: u64,
    k: int,
    n: int,
)
    requires
        0 <= k <= n <= events.len(),
        n <= replies.len(),
        emission(events.take(k), replies.take(k), base).failed is Some,
    ensures
        emission(events.take(n), replies.take(n), base) == emission(events.take(k), replies.take(k), base),
    decreases n - k,
{
    if k < n {
        assert(events.take(k + 1).drop_last() =~= events.take(k));
        assert(replies.take(k + 1).drop_last() =~= replies.take(k));
        lemma_emission_stops(events, replies, base, k + 1, n);
    }
}

proof fn lemma_trace_push<S: KmesEventSink>(
    states: Seq<S>,
    handed: Seq<KmesEventView>,
    answers: Seq<Result<(), BoundaryError>>,
    next: S,
    e: KmesEventView,
    a: Result<(), BoundaryError>,
)
    requires
        sink_went_through(states, handed, answers),
        S::hands(states.last(), next, e, a),
    ensures
        sink_went_through(states.push(next), handed.push(e), answers.push(a)),
{
    let s2 = states.push(next);
    let h2 = handed.push(e);
    let a2 = answers.push(a);
    assert forall|k: int| 0 <= k < h2.len() implies S::hands(s2[k], s2[k + 1], #[trigger] h2[k], a2[k]) by {
        if k < handed.len() {
            assert(h2[k] == handed[k]);
            assert(S::hands(states[k], states[k + 1], handed[k], answers[k]));
        }
    }
}

impl DroppedKmesEvent {
    pub fn oversized_message(&self) -> (s: String)
        ensures
            s@ == oversized_text(*self),
    {
        let mut s = String::from_str("dropped event ");
        append_string(&mut s, &self.event_type);
        match &self.service {
            Some(service) => {
                s.append(" for service ");
                append_string(&mut s, service);
            },
            None => {},
        }
        match self.job_id {
            Some(j) => {
                s.append(" (job ");
                append_decimal(&mut s, j);
                s.append(")");
            },
            None => {},
        }
        s.append(": ");
        append_string(&mut s, &self.error);
        s.append(" (");
        append_decimal(&mut s, self.dropped_total);
        s.append(" dropped this boot)");
        s
    }

    /// The console line for a dropped event.
    pub fn console_message(&self) -> (s: String)
        ensures
            s@ == "peinit warning: "@ + oversized_text(*self) + "\n"@,
    {
        let mut s = String::from_str("peinit warning: ");
        let m = self.oversized_message();
        append_string(&mut s, &m);
        s.append("\n");
        s
    }

    /// The small record that takes the dropped event's place in the trail.
    pub fn oversized_event(&self) -> (e: KmesEvent)
        ensures
            e@ == gap_record(self@),
    {
        proof {
            reveal_strlit("event.oversized");
        }
        KmesEvent {
            event_type: String::from_str("event.oversized"),
            service: clone_opt_string(&self.service),
            job_id: self.job_id,
            detail: self.oversized_message(),
        }
    }
}

/// What containing the sink's answer to one event comes to: nothing when
/// it took the event, and otherwise the record of the drop, carrying the
/// ring's error and the boot's count of drops with this one.
pub fn contain_kmes_refusal(event: &KmesEvent, answer: &Result<(), BoundaryError>, dropped_before: u64) -> (r: Option<
    DroppedKmesEvent,
>)
    requires
        dropped_before < u64::MAX,
    ensures
        match answer {
            Ok(()) => r is None,
            Err(error) => r matches Some(d) && d@ == refusal_record(event@, *error, (dropped_before + 1) as u64),
        },
{
    match answer {
        Ok(()) => None,
        Err(error) => Some(
            DroppedKmesEvent {
                event_type: event.event_type.clone(),
                service: clone_opt_string(&event.service),
                job_id: event.job_id,
                error: error.debug_text(),
                dropped_total: dropped_before + 1,
            },
        ),
    }
}

/// Emit a turn's records one at a time, dropping any the ring refuses.
///
/// A refusal of one event is that event's problem (too large, most likely):
/// it is dropped, counted, and replaced in the trail by a small
/// `event.oversized` naming it. That record fits by construction, so a ring
/// that refuses it too is unusable, and that is the loop's error.
///
/// The sink is handed every event in order, each refused one followed by
/// its gap record, up to a refused gap record; the result and the count of
/// drops are what `emission` says for the sink's answers.
pub fn emit_kmes_events_contained<S: KmesEventSink>(sink: &mut S, dropped_events: &mut u64, events: &Vec<KmesEvent>) -> (r: Result<
    Vec<DroppedKmesEvent>,
    RuntimeShutdownLoopError,
>)
    requires
        *old(dropped_events) + events@.len() <= u64::MAX,
    ensures
        exists|replies: Seq<(Result<(), BoundaryError>, Result<(), BoundaryError>)>, states: Seq<S>|
            #[trigger] sink_handed(*old(sink), *final(sink), events_view(events@), *old(dropped_events), replies, states) && {
                let st = emission(events_view(events@), replies, *old(dropped_events));
                &&& *final(dropped_events) == st.count
                &&& emission_result(st, r)
            },
{
    let base = *dropped_events;
    let ghost all = events_view(events@);
    let ghost mut replies: Seq<(Result<(), BoundaryError>, Result<(), BoundaryError>)> = Seq::empty();
    let ghost mut states: Seq<S> = seq![*sink];
    let mut dropped: Vec<DroppedKmesEvent> = Vec::new();
    let n = events.len();
    let mut i: usize = 0;
    while i < n
        invariant
            n == events@.len(),
            all == events_view(events@),
            all.len() == n,
            0 <= i <= n,
            base + n <= u64::MAX,
            base == *old(dropped_events),
            replies.len() == i,
            states.len() > 0,
            states[0] == *old(sink),
            states.last() == *sink,
            ({
                let st = emission(all.take(i as int), replies, base);
                &&& st.failed is None
                &&& sink_went_through(states, st.handed, st.answers)
                &&& drops_view(dropped@) == st.dropped
                &&& *dropped_events == st.count
                &&& st.count == base + dropped@.len()
                &&& dropped@.len() <= i
            }),
        decreases n - i,
    {
        let event = &events[i];
        let ghost prev = emission(all.take(i as int), replies, base);
        let ghost before = *sink;
        proof {
            assert(all[i as int] == event@);
        }
        let answer = sink.emit_kmes_event(event);
        let ghost after_event = *sink;
        match contain_kmes_refusal(event, &answer, *dropped_events) {
            None => {
                proof {
                    let reply = (answer, answer);
                    lemma_emission_step(all, replies.push(reply), base, i as int);
                    assert(replies.push(reply).drop_last() =~= replies);
                    lemma_trace_push(states, prev.handed, prev.answers, after_event, event@, answer);
                    replies = replies.push(reply);
                    states = states.push(after_event);
                }
            },
            Some(record) => {
                *dropped_events = *dropped_events + 1;
                let notice = record.oversized_event();
                let ghost d = record@;
                let ring_answer = sink.emit_kmes_event(&notice);
                let ghost after_notice = *sink;
                proof {
                    let reply = (answer, ring_answer);
                    lemma_emission_step(all, replies.push(reply), base, i as int);
                    assert(replies.push(reply).drop_last() =~= replies);
                    lemma_trace_push(states, prev.handed, prev.answers, after_event, event@, answer);
                    lemma_trace_push(
                        states.push(after_event),
                        prev.handed.push(event@),
                        prev.answers.push(answer),
                        after_notice,
                        gap_record(d),
                        ring_answer,
                    );
                    replies = replies.push(reply);
                    states = states.push(after_event).push(after_notice);
                }
                match ring_answer {
                    Ok(()) => {
                        let ghost was = dropped@;
                        dropped.push(record);
                        proof {
                            assert(drops_view(dropped@) =~= drops_view(was).push(d));
                        }
                    },
                    Err(ring) => {
                        proof {
                            let pad = Seq::new((n - i - 1) as nat, |j: int| (Ok::<(), BoundaryError>(()), Ok::<(), BoundaryError>(())));
                            let full = replies + pad;
                            assert(full.take(i + 1) =~= replies);
                            assert(full.take(n as int).len() == n);
                            lemma_emission_stops(all, full, base, i + 1, n as int);
                            assert(all.take(n as int) =~= all);
                            assert(full.take(n as int) =~= full);
                            assert(sink_handed(*old(sink), *sink, all, base, full, states));
                        }
                        return Err(RuntimeShutdownLoopError::Kmes(ring));
                    },
                }
            },
        }
        i += 1;
    }
    proof {
        assert(all.take(n as int) =~= all);
        assert(sink_handed(*old(sink), *sink, all, base, replies, states));
    }
    Ok(dropped)
}

/// Collect a loop turn's records and emit them, containing refusals.
pub fn emit_runtime_loop_kmes_events<S: KmesEventSink>(
    sink: &mut S,
    dropped_events: &mut u64,
    pre_work: &RuntimeWorkPumpTurn,
    maintenance_before_wait: &SupervisorOperationMaintenanceTurn,
    event_turns: &Vec<RuntimeShutdownEventTurn>,
    post_work: &RuntimeWorkPumpTurn,
    maintenance_after_sources: &SupervisorOperationMaintenanceTurn,
    calendar_turns: &Vec<(i32, RuntimeCalendarTimerTurn)>,
) -> (r: Result<Vec<DroppedKmesEvent>, RuntimeShutdownLoopError>)
    requires
        *old(dropped_events) + runtime_loop_recs(
            *pre_work,
            *maintenance_before_wait,
            event_turns@,
            *post_work,
            *maintenance_after_sources,
            calendar_turns@,
        ).len() <= u64::MAX,
    ensures
        exists|replies: Seq<(Result<(), BoundaryError>, Result<(), BoundaryError>)>, states: Seq<S>|
            #[trigger] sink_handed(
                *old(sink),
                *final(sink),
                runtime_loop_recs(
                    *pre_work,
                    *maintenance_before_wait,
                    event_turns@,
                    *post_work,
                    *maintenance_after_sources,
                    calendar_turns@,
                ),
                *old(dropped_events),
                replies,
                states,
            ) && {
                let st = emission(
                    runtime_loop_recs(
                        *pre_work,
                        *maintenance_before_wait,
                        event_turns@,
                        *post_work,
                        *maintenance_after_sources,
                        calendar_turns@,
                    ),
                    replies,
                    *old(dropped_events),
                );
                &&& *final(dropped_events) == st.count
                &&& emission_result(st, r)
            },
{
    let mut events: Vec<KmesEvent> = Vec::new();
    collect_runtime_loop_kmes_events(
        pre_work,
        maintenance_before_wait,
        event_turns,
        post_work,
        maintenance_after_sources,
        calendar_turns,
        &mut events,
    );
    assert(events_view(events@) =~= runtime_loop_recs(
        *pre_work,
        *maintenance_before_wait,
        event_turns@,
        *post_work,
        *maintenance_after_sources,
        calendar_turns@,
    ));
    emit_kmes_events_contained(sink, dropped_events, &events)
}

} // verus!
