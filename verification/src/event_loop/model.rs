//! The limits, turns and errors of the runtime loop.
use vstd::prelude::*;
use crate::boundary::{BoundaryError, LinuxEpollEvent};
use crate::event_loop::source::{RuntimeEventSource, RuntimeEventSourceDecodeError, law_token_round_trip};
use crate::model::turn::{RuntimeShutdownEventTurn, RuntimeWorkPumpTurn};

verus! {

/// How much of a control request one read takes.
pub const DEFAULT_MAX_CONTROL_READ_BYTES: usize = 8192;

/// The largest control request the socket accepts.
pub const DEFAULT_MAX_REQUEST_SIZE_BYTES: usize = 65536;

/// How long a control connection may sit idle.
pub const DEFAULT_CONNECTION_TIMEOUT_SECS: u64 = 30;

/// The limits a control connection is read under.
#[derive(Debug, Clone, Copy, PartialEq, Eq)]
pub struct RuntimeControlLimits {
    pub max_read_bytes: usize,
    pub max_request_bytes: usize,
    pub connection_timeout_secs: u64,
}

impl RuntimeControlLimits {
    pub fn new(max_read_bytes: usize, max_request_bytes: usize, connection_timeout_secs: u64) -> (l: Self)
        ensures
            l.max_read_bytes == max_read_bytes,
            l.max_request_bytes == max_request_bytes,
            l.connection_timeout_secs == connection_timeout_secs,
    {
        RuntimeControlLimits { max_read_bytes, max_request_bytes, connection_timeout_secs }
    }
}

impl RuntimeControlLimits {
    /// The limits the control socket is read under unless configured.
    pub open spec fn spec_default() -> Self {
        RuntimeControlLimits {
            max_read_bytes: DEFAULT_MAX_CONTROL_READ_BYTES,
            max_request_bytes: DEFAULT_MAX_REQUEST_SIZE_BYTES,
            connection_timeout_secs: DEFAULT_CONNECTION_TIMEOUT_SECS,
        }
    }
}

impl Default for RuntimeControlLimits {
    fn default() -> (l: Self)
        ensures
            l == Self::spec_default(),
            l.max_read_bytes == DEFAULT_MAX_CONTROL_READ_BYTES,
            l.max_request_bytes == DEFAULT_MAX_REQUEST_SIZE_BYTES,
            l.connection_timeout_secs == DEFAULT_CONNECTION_TIMEOUT_SECS,
    {
        RuntimeControlLimits {
            max_read_bytes: DEFAULT_MAX_CONTROL_READ_BYTES,
            max_request_bytes: DEFAULT_MAX_REQUEST_SIZE_BYTES,
            connection_timeout_secs: DEFAULT_CONNECTION_TIMEOUT_SECS,
        }
    }
}

/// Why a wait for events failed: epoll itself, or a token that names no
/// source (the event is kept, so the report says which).
#[derive(Debug, Clone, PartialEq, Eq)]
pub enum RuntimeEventWaitError {
    Wait(String),
    Decode { event: LinuxEpollEvent, source: RuntimeEventSourceDecodeError },
}

/// Waiting for the next batch of event sources.
pub trait RuntimeEventWaiter {
    fn wait_runtime_events(&mut self, max_events: usize) -> Result<Vec<RuntimeEventSource>, RuntimeEventWaitError>;

    fn wait_runtime_events_timeout(&mut self, max_events: usize, timeout_ms: i32) -> Result<
        Vec<RuntimeEventSource>,
        RuntimeEventWaitError,
    > {
        self.wait_runtime_events(max_events)
    }
}

/// Why a descriptor could not be added to or taken from the wait set.
#[derive(Debug, Clone, PartialEq, Eq)]
pub enum RuntimeEventRegistrationError {
    Register { fd: i32, source: RuntimeEventSource, message: String },
    Unregister { fd: i32, message: String },
}

/// Adding descriptors to, and taking them from, the set the loop waits on.
pub trait RuntimeEventRegistrar: Sized {
    /// Whether asking the registrar in state `before` to wait on `fd` as
    /// `source`, answered with `answer`, leaves it in state `after`. An
    /// implementation that keeps no account of its wait set keeps the
    /// default, which holds of every call.
    open spec fn registers(
        before: Self,
        after: Self,
        fd: i32,
        source: RuntimeEventSource,
        answer: Result<(), RuntimeEventRegistrationError>,
    ) -> bool {
        true
    }

    /// Whether asking the registrar in state `before` to stop waiting on
    /// `fd`, answered with `answer`, leaves it in state `after`; the default
    /// holds of every call.
    open spec fn unregisters(before: Self, after: Self, fd: i32, answer: Result<(), RuntimeEventRegistrationError>) -> bool {
        true
    }

    fn register_source(&mut self, fd: i32, source: RuntimeEventSource) -> (r: Result<(), RuntimeEventRegistrationError>)
        ensures
            Self::registers(*old(self), *final(self), fd, source, r),
    ;

    fn unregister_source(&mut self, fd: i32) -> (r: Result<(), RuntimeEventRegistrationError>)
        ensures
            Self::unregisters(*old(self), *final(self), fd, r),
    ;
}

/// Whether the registrar went from `before` to `after` by being asked to
/// stop waiting on each of `fds` in turn, passing through `states` and
/// answering `answers`.
pub open spec fn unregistered_each<R: RuntimeEventRegistrar>(
    before: R,
    after: R,
    fds: Seq<i32>,
    states: Seq<R>,
    answers: Seq<Result<(), RuntimeEventRegistrationError>>,
) -> bool {
    &&& states.len() == fds.len() + 1
    &&& answers.len() == fds.len()
    &&& states[0] == before
    &&& states[fds.len() as int] == after
    &&& forall|k: int| 0 <= k < fds.len() ==> R::unregisters(states[k], states[k + 1], #[trigger] fds[k], answers[k])
}

/// A request made of the registrar.
pub enum RegistrarCall {
    Register { fd: i32, source: RuntimeEventSource },
    Unregister { fd: i32 },
}

/// Whether the registrar in state `before`, asked `call` and answering
/// `answer`, is left in state `after`.
pub open spec fn answers_call<R: RuntimeEventRegistrar>(
    before: R,
    after: R,
    call: RegistrarCall,
    answer: Result<(), RuntimeEventRegistrationError>,
) -> bool {
    match call {
        RegistrarCall::Register { fd, source } => R::registers(before, after, fd, source, answer),
        RegistrarCall::Unregister { fd } => R::unregisters(before, after, fd, answer),
    }
}

/// Whether the registrar went from `before` to `after` by being asked
/// `calls` in order, passing through `states` and answering `answers`.
pub open spec fn answered_each<R: RuntimeEventRegistrar>(
    before: R,
    after: R,
    calls: Seq<RegistrarCall>,
    states: Seq<R>,
    answers: Seq<Result<(), RuntimeEventRegistrationError>>,
) -> bool {
    &&& states.len() == calls.len() + 1
    &&& answers.len() == calls.len()
    &&& states[0] == before
    &&& states[calls.len() as int] == after
    &&& forall|k: int| 0 <= k < calls.len() ==> answers_call(states[k], states[k + 1], #[trigger] calls[k], answers[k])
}

/// The requests to stop waiting on each of `fds`, in order.
pub open spec fn unregister_calls(fds: Seq<i32>) -> Seq<RegistrarCall> {
    fds.map_values(|fd: i32| RegistrarCall::Unregister { fd })
}

/// One more request answered extends the trace by it.
pub proof fn lemma_answered_push<R: RuntimeEventRegistrar>(
    before: R,
    mid: R,
    after: R,
    calls: Seq<RegistrarCall>,
    states: Seq<R>,
    answers: Seq<Result<(), RuntimeEventRegistrationError>>,
    call: RegistrarCall,
    answer: Result<(), RuntimeEventRegistrationError>,
)
    requires
        answered_each(before, mid, calls, states, answers),
        answers_call(mid, after, call, answer),
    ensures
        answered_each(before, after, calls.push(call), states.push(after), answers.push(answer)),
{
    let c2 = calls.push(call);
    let s2 = states.push(after);
    let a2 = answers.push(answer);
    assert forall|k: int| 0 <= k < c2.len() implies answers_call(s2[k], s2[k + 1], #[trigger] c2[k], a2[k]) by {
        if k < calls.len() {
            assert(c2[k] == calls[k] && s2[k] == states[k] && s2[k + 1] == states[k + 1] && a2[k] == answers[k]);
        }
    }
}

/// A trace followed by a run of requests to stop waiting on `fds` is one
/// trace of both.
pub proof fn lemma_answered_then_unregistered<R: RuntimeEventRegistrar>(
    before: R,
    mid: R,
    after: R,
    calls: Seq<RegistrarCall>,
    states: Seq<R>,
    answers: Seq<Result<(), RuntimeEventRegistrationError>>,
    fds: Seq<i32>,
    more_states: Seq<R>,
    more_answers: Seq<Result<(), RuntimeEventRegistrationError>>,
)
    requires
        answered_each(before, mid, calls, states, answers),
        unregistered_each(mid, after, fds, more_states, more_answers),
    ensures
        answered_each(
            before,
            after,
            calls + unregister_calls(fds),
            states + more_states.drop_first(),
            answers + more_answers,
        ),
{
    let c = calls.len();
    let c2 = calls + unregister_calls(fds);
    let s2 = states + more_states.drop_first();
    let a2 = answers + more_answers;
    assert forall|k: int| 0 <= k < c2.len() implies answers_call(s2[k], s2[k + 1], #[trigger] c2[k], a2[k]) by {
        if k < c {
            assert(c2[k] == calls[k] && s2[k] == states[k] && s2[k + 1] == states[k + 1] && a2[k] == answers[k]);
        } else {
            let j = k - c;
            assert(c2[k] == RegistrarCall::Unregister { fd: fds[j] });
            assert(s2[k] == more_states[j]);
            assert(s2[k + 1] == more_states[j + 1]);
            assert(a2[k] == more_answers[j]);
            assert(R::unregisters(more_states[j], more_states[j + 1], fds[j], more_answers[j]));
        }
    }
    assert(s2[c2.len() as int] == more_states[fds.len() as int]);
}

/// Ask the registrar to stop waiting on each of `fds`, in order. A refusal
/// is not fatal: the descriptor is being closed anyway.
pub(crate) fn unregister_each<R: RuntimeEventRegistrar>(registrar: &mut R, fds: &Vec<i32>)
    ensures
        exists|states: Seq<R>, answers: Seq<Result<(), RuntimeEventRegistrationError>>|
            unregistered_each(*old(registrar), *final(registrar), fds@, states, answers),
{
    let ghost mut states: Seq<R> = seq![*registrar];
    let ghost mut answers: Seq<Result<(), RuntimeEventRegistrationError>> = Seq::empty();
    let n = fds.len();
    let mut i: usize = 0;
    while i < n
        invariant
            n == fds@.len(),
            0 <= i <= n,
            unregistered_each(*old(registrar), *registrar, fds@.take(i as int), states, answers),
        decreases n - i,
    {
        let answer = registrar.unregister_source(fds[i]);
        proof {
            let s2 = states.push(*registrar);
            let a2 = answers.push(answer);
            assert forall|k: int| 0 <= k < i + 1 implies R::unregisters(s2[k], s2[k + 1], #[trigger] fds@.take(i + 1)[k], a2[k]) by {
                if k < i {
                    assert(fds@.take(i as int)[k] == fds@.take(i + 1)[k]);
                }
            }
            states = s2;
            answers = a2;
        }
        i += 1;
    }
    proof {
        assert(fds@.take(n as int) =~= fds@);
    }
}

/// Why a jobs-channel operation failed.
#[derive(Debug, Clone, PartialEq, Eq)]
pub enum RuntimeJobsChannelError {
    Accept(String),
    Registration(RuntimeEventRegistrationError),
    Connection(String),
    WaitFlush(String),
}

/// Why a loop turn failed.
#[derive(Debug, Clone, PartialEq, Eq)]
pub enum RuntimeShutdownLoopError {
    Clock(BoundaryError),
    Kmes(BoundaryError),
    Wait(RuntimeEventWaitError),
    Work(String),
    LogRegistration(RuntimeEventRegistrationError),
    EventRegistration(RuntimeEventRegistrationError),
    CalendarTimerReconfigure(String),
    OperationMaintenance(String),
    /// Applying an exit that was reaped before its job carried a pid.
    DeferredChildReap(String),
    ControlWait(String),
    JobsWait(RuntimeJobsChannelError),
    Finalization(String),
    Event { source: RuntimeEventSource, error: String },
}

/// One pass of the loop: the work drained before the wait, the sources the
/// wait returned, each source's turn, the work drained after, and whether
/// service logs were being forwarded to eventd.
#[derive(Debug, PartialEq, Eq)]
pub struct RuntimeShutdownLoopTurn {
    pub pre_work: RuntimeWorkPumpTurn,
    pub sources: Vec<RuntimeEventSource>,
    pub turns: Vec<RuntimeShutdownEventTurn>,
    pub post_work: RuntimeWorkPumpTurn,
    pub eventd_forwarding: bool,
}

/// The sources a batch of epoll events stands for, or the first event whose
/// token names none.
pub open spec fn decode_all(events: Seq<LinuxEpollEvent>) -> Result<Seq<RuntimeEventSource>, (LinuxEpollEvent, RuntimeEventSourceDecodeError)>
    decreases events.len(),
{
    if events.len() == 0 {
        Ok(Seq::empty())
    } else {
        match decode_all(events.drop_last()) {
            Err(e) => Err(e),
            Ok(prefix) => match RuntimeEventSource::spec_from_token(events.last().token) {
                Ok(s) => Ok(prefix.push(s)),
                Err(source) => Err((events.last(), source)),
            },
        }
    }
}

/// Events that each carry the token of a source decode to those sources,
/// in the order the events came.
pub proof fn law_decode_round_trip(sources: Seq<RuntimeEventSource>, events: Seq<LinuxEpollEvent>)
    requires
        events.len() == sources.len(),
        forall|i: int| 0 <= i < sources.len() ==> (#[trigger] sources[i]).spec_valid(),
        forall|i: int| 0 <= i < sources.len() ==> (#[trigger] events[i]).token == sources[i].spec_token(),
    ensures
        decode_all(events) == Ok::<Seq<RuntimeEventSource>, (LinuxEpollEvent, RuntimeEventSourceDecodeError)>(sources),
    decreases sources.len(),
{
    if sources.len() == 0 {
        assert(sources =~= Seq::<RuntimeEventSource>::empty());
    } else {
        let n = sources.len() - 1;
        assert(events.last() == events[n]);
        assert(sources.last() == sources[n]);
        law_decode_round_trip(sources.drop_last(), events.drop_last());
        law_token_round_trip(sources.last());
        assert(sources.drop_last().push(sources.last()) =~= sources);
    }
}

proof fn lemma_decode_all_ok(events: Seq<LinuxEpollEvent>)
    requires
        forall|i: int| 0 <= i < events.len() ==> RuntimeEventSource::spec_from_token((#[trigger] events[i]).token) is Ok,
    ensures
        decode_all(events) is Ok,
    decreases events.len(),
{
    if events.len() > 0 {
        assert(events.last() == events[events.len() - 1]);
        lemma_decode_all_ok(events.drop_last());
    }
}

/// A batch whose event at `k` carries a token that names no source, after
/// events that all decode, fails on that event, carried unchanged.
pub proof fn law_decode_stops_at_first_bad(events: Seq<LinuxEpollEvent>, k: int)
    requires
        0 <= k < events.len(),
        forall|i: int| 0 <= i < k ==> RuntimeEventSource::spec_from_token((#[trigger] events[i]).token) is Ok,
        RuntimeEventSource::spec_from_token(events[k].token) is Err,
    ensures
        decode_all(events) is Err,
        decode_all(events)->Err_0.0 == events[k],
    decreases events.len(),
{
    let n = events.len() - 1;
    assert(events.last() == events[n]);
    if k == n {
        lemma_decode_all_ok(events.drop_last());
    } else {
        law_decode_stops_at_first_bad(events.drop_last(), k);
    }
}

pub fn decode_runtime_epoll_events(events: Vec<LinuxEpollEvent>) -> (r: Result<Vec<RuntimeEventSource>, RuntimeEventWaitError>)
    ensures
        match r {
            Ok(v) => decode_all(events@) == Ok::<Seq<RuntimeEventSource>, (LinuxEpollEvent, RuntimeEventSourceDecodeError)>(v@),
            Err(RuntimeEventWaitError::Decode { event, source }) => decode_all(events@) == Err::<
                Seq<RuntimeEventSource>,
                (LinuxEpollEvent, RuntimeEventSourceDecodeError),
            >((event, source)),
            Err(RuntimeEventWaitError::Wait(_)) => false,
        },
{
    let mut out: Vec<RuntimeEventSource> = Vec::new();
    let n = events.len();
    let mut i: usize = 0;
    while i < n
        invariant
            n == events@.len(),
            0 <= i <= n,
            decode_all(events@.take(i as int)) == Ok::<Seq<RuntimeEventSource>, (LinuxEpollEvent, RuntimeEventSourceDecodeError)>(out@),
        decreases n - i,
    {
        let event = events[i];
        proof {
            assert(events@.take(i as int + 1).drop_last() =~= events@.take(i as int));
        }
        match RuntimeEventSource::from_token(event.token) {
            Ok(source) => out.push(source),
            Err(source) => {
                proof {
                    lemma_decode_error_sticks(events@, i as int + 1);
                }
                return Err(RuntimeEventWaitError::Decode { event, source });
            },
        }
        i += 1;
    }
    proof {
        assert(events@.take(n as int) =~= events@);
    }
    Ok(out)
}

/// Once a prefix fails to decode, the whole batch fails with the same event.
proof fn lemma_decode_error_sticks(events: Seq<LinuxEpollEvent>, k: int)
    requires
        0 <= k <= events.len(),
        decode_all(events.take(k)) is Err,
    ensures
        decode_all(events) == decode_all(events.take(k)),
    decreases events.len() - k,
{
    if k < events.len() {
        assert(events.take(k + 1).drop_last() =~= events.take(k));
        lemma_decode_error_sticks(events, k + 1);
    } else {
        assert(events.take(k) =~= events);
    }
}

} // verus!
