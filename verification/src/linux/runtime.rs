//! The Linux runtime's own state: the listeners it bound, the connections
//! they accepted, the console policy for the turn, the armed calendar
//! timers and the last-run writes still outstanding.
//!
//! The descriptors themselves (epoll, timerfds, the signalfd, the sockets)
//! are the host's; this holds what the loop decides with.
use vstd::prelude::*;
use crate::connections::{
    ConnectionRecord, ConnectionTable, has_fd, idle_fds_of, live_at, next_idle_deadline_of,
};
use crate::console::policy::{QuietLevel, QuietPolicy, console_owned};
use crate::event_loop::model::{
    RuntimeControlLimits, RuntimeEventRegistrar, RuntimeEventRegistrationError, unregister_each, unregistered_each,
};
use crate::event_loop::source::RuntimeEventSource;
use crate::event_loop::timing::{deadline_wait_timeout_ms, earliest, earliest_deadline, spec_deadline_wait_timeout_ms};
use crate::jobs::{RuntimeJobsChannel, RuntimeJobsChannelTable};
use crate::linux::calendar::{LinuxCalendarTimerEntry, LinuxCalendarTimerTable};
use crate::linux::config::{
    ControlSecurityDescriptor, DEFAULT_JOBS_CONNECTION_TIMEOUT_SECS, JobsSocketLimits, LinuxRuntimeConfig,
    SupervisorControlLimits,
};
use crate::linux::timer_last_run::{
    FailedTimerLastRunWrite, OutstandingWrite, TimerLastRunWrites, after_claim, after_record, after_records, claim_result,
    write_failed, MAX_OUTSTANDING,
};
use crate::linux::calendar::identity_of;
use crate::console::message::{ConsoleMessage, ConsoleMessageView, messages_view, msg_error, push_error};
use crate::console::policy::policy_allows;
use crate::console::service::{budget_reboot_msgs, push_critical_budget_reboot_messages};
use crate::console::turn::{runtime_loop_msgs, collect_runtime_loop_console_messages, calendar_turns_msgs, event_turns_msgs};
use crate::console::work::work_pump_msgs;
use crate::kmes::emit::{KmesEventSink, emit_runtime_loop_kmes_events, emission, sink_handed, sink_went_through};
use crate::kmes::turn::{runtime_loop_recs, calendar_turns_recs, work_pump_recs, maintenance_recs, event_turns_recs};
use crate::event_loop::model::RuntimeShutdownLoopError;
use crate::model::deadline::SupervisorOperationMaintenanceTurn;
use crate::model::job::ChildReap;
use crate::model::service::ServiceTable;
use crate::jfs::{RuntimeJfsDevice, register_phase1_jfs_device};
use crate::boundary::{BoundaryError, RuntimeClock};
use crate::model::shutdown::SupervisorCriticalBudgetRebootDispatch;
use crate::model::turn::{
    RuntimeCalendarTimerTurn, RuntimeShutdownEventTurn, RuntimeWorkPumpTurn, SupervisorChildReapTurn,
    TimerLastRunWriteOutcome,
};
use crate::seqs::{flat_map, lemma_flat_map_all, lemma_flat_map_step};
use crate::text::append_string;

verus! {

/// A socket the host bound and listens on: its descriptor and its path.
#[derive(Debug, Clone, PartialEq, Eq)]
pub struct BoundSocket {
    pub fd: i32,
    pub path: String,
}

#[derive(Debug)]
pub struct LinuxShutdownRuntime {
    control_listener: BoundSocket,
    control_connections: ConnectionTable,
    notify_socket: BoundSocket,
    calendar_timers: LinuxCalendarTimerTable,
    /// `peios.quiet`, from the kernel command line.
    quiet: QuietLevel,
    /// Re-evaluated once per turn rather than per message: terminal
    /// ownership can only change when a service does, and a turn is the
    /// granularity at which that happens.
    quiet_policy: QuietPolicy,
    jobs_channel: RuntimeJobsChannelTable<BoundSocket>,
    /// Refreshed from the supervisor every turn, like the control limits.
    jobs_connection_timeout_secs: u64,
    /// Outstanding forked timer last-run writes, so a failed one is
    /// reported rather than discarded with the child.
    timer_last_run_writes: TimerLastRunWrites,
    /// How many audit events the ring has refused this boot.
    dropped_kmes_events: u64,
    /// The journalling device Phase 1 handed over, once registered.
    jfs_device: Option<RuntimeJfsDevice>,
    config: LinuxRuntimeConfig,
}

/// What became of the journalling device Phase 1 opened.
#[derive(Debug, Clone, PartialEq, Eq)]
pub enum Phase1JfsRegistration {
    Registered { fd: i32, path: String },
    RegisterFailed { fd: i32, path: String, error: RuntimeEventRegistrationError },
    /// Phase 1 had no device to hand over.
    Unavailable,
}

/// What became of the infrastructure Phase 1 handed over.
#[derive(Debug, Clone, PartialEq, Eq)]
pub struct Phase1InfrastructureRegistration {
    pub jfs: Phase1JfsRegistration,
}

/// The write a calendar timer's turn forked, named by the timer it belongs
/// to; none when no child was forked or the fd is no longer armed.
pub open spec fn queued_write(table: Seq<LinuxCalendarTimerEntry>, t: (i32, RuntimeCalendarTimerTurn)) -> Option<OutstandingWrite> {
    match t.1.last_run_write {
        Some(Ok(TimerLastRunWriteOutcome::Queued { pid })) => match identity_of(table, t.0) {
            Some(id) => Some(OutstandingWrite { pid, service: id.0, schedule: id.1 }),
            None => None,
        },
        _ => None,
    }
}

/// The outstanding writes after recording each calendar turn's, in order.
pub open spec fn recorded(
    s: Seq<OutstandingWrite>,
    table: Seq<LinuxCalendarTimerEntry>,
    turns: Seq<(i32, RuntimeCalendarTimerTurn)>,
) -> Seq<OutstandingWrite>
    decreases turns.len(),
{
    if turns.len() == 0 {
        s
    } else {
        let prev = recorded(s, table, turns.drop_last());
        match queued_write(table, turns.last()) {
            Some(w) => after_record(prev, w),
            None => prev,
        }
    }
}

/// The child of a reap no job claimed.
pub open spec fn untracked_child(r: SupervisorChildReapTurn) -> Seq<ChildReap> {
    match r {
        SupervisorChildReapTurn::Untracked { child } => seq![child],
        _ => Seq::empty(),
    }
}

pub open spec fn turn_untracked_reaps(t: RuntimeShutdownEventTurn) -> Seq<ChildReap> {
    match t {
        RuntimeShutdownEventTurn::Pid1Signal { child_reaps, .. } => flat_map(child_reaps@, |r: SupervisorChildReapTurn| untracked_child(r)),
        _ => Seq::empty(),
    }
}

/// The children no job claimed that the turn's PID 1 signals reaped.
pub open spec fn untracked_reaps(turns: Seq<RuntimeShutdownEventTurn>) -> Seq<ChildReap> {
    flat_map(turns, |t: RuntimeShutdownEventTurn| turn_untracked_reaps(t))
}

/// The outstanding writes after claiming each reaped pid in order, and the
/// failed writes the claims reported.
pub open spec fn claims(s: Seq<OutstandingWrite>, reaps: Seq<ChildReap>) -> (Seq<OutstandingWrite>, Seq<FailedTimerLastRunWrite>)
    decreases reaps.len(),
{
    if reaps.len() == 0 {
        (s, Seq::empty())
    } else {
        let prev = claims(s, reaps.drop_last());
        let r = reaps.last();
        (after_claim(prev.0, r.pid), match claim_result(prev.0, r.pid, r.status) {
            Some(f) => prev.1.push(f),
            None => prev.1,
        })
    }
}

/// The warning for a last-run write that failed. Best-effort by design, so
/// a warning rather than a failure, but it has to be said: a persistent
/// timer whose timestamp never lands runs its catch-up on every boot.
pub open spec fn last_run_warning_text(f: FailedTimerLastRunWrite) -> Seq<char> {
    "peinit warning: recording the last run of timer "@ + f.schedule@ + " for service "@ + f.service@
        + " failed; it will run catch-up again after a reboot\n"@
}

pub open spec fn last_run_failure_msgs(failed: Seq<FailedTimerLastRunWrite>) -> Seq<ConsoleMessageView> {
    flat_map(failed, |f: FailedTimerLastRunWrite| msg_error(last_run_warning_text(f)))
}

pub open spec fn critical_reboot_msgs(d: Option<SupervisorCriticalBudgetRebootDispatch>) -> Seq<ConsoleMessageView> {
    match d {
        Some(d) => budget_reboot_msgs(d),
        None => Seq::empty(),
    }
}

/// What the policy lets through, in order.
pub open spec fn allowed_messages(p: QuietPolicy, msgs: Seq<ConsoleMessageView>) -> Seq<ConsoleMessageView> {
    msgs.filter(|m: ConsoleMessageView| policy_allows(p.level, p.console_is_owned, m.severity))
}

/// The children no job claimed that the turn's PID 1 signals reaped, in
/// the order they were reaped.
pub fn untracked_child_reaps(turns: &Vec<RuntimeShutdownEventTurn>) -> (r: Vec<ChildReap>)
    ensures
        r@ == untracked_reaps(turns@),
{
    let mut out: Vec<ChildReap> = Vec::new();
    let n = turns.len();
    let mut i: usize = 0;
    while i < n
        invariant
            n == turns@.len(),
            0 <= i <= n,
            out@ == flat_map(turns@.take(i as int), |t: RuntimeShutdownEventTurn| turn_untracked_reaps(t)),
        decreases n - i,
    {
        let ghost before = out@;
        match &turns[i] {
            RuntimeShutdownEventTurn::Pid1Signal { child_reaps, .. } => {
                let m = child_reaps.len();
                let mut k: usize = 0;
                while k < m
                    invariant
                        m == child_reaps@.len(),
                        0 <= k <= m,
                        out@ == before + flat_map(child_reaps@.take(k as int), |r: SupervisorChildReapTurn| untracked_child(r)),
                    decreases m - k,
                {
                    match &child_reaps[k] {
                        SupervisorChildReapTurn::Untracked { child } => {
                            out.push(*child);
                        },
                        _ => {},
                    }
                    proof {
                        lemma_flat_map_step(child_reaps@, |r: SupervisorChildReapTurn| untracked_child(r), k as int);
                        assert(out@ =~= before + flat_map(child_reaps@.take(k + 1), |r: SupervisorChildReapTurn| untracked_child(r)));
                    }
                    k += 1;
                }
                proof {
                    lemma_flat_map_all(child_reaps@, |r: SupervisorChildReapTurn| untracked_child(r));
                }
            },
            _ => {},
        }
        proof {
            lemma_flat_map_step(turns@, |t: RuntimeShutdownEventTurn| turn_untracked_reaps(t), i as int);
            assert(out@ =~= flat_map(turns@.take(i + 1), |t: RuntimeShutdownEventTurn| turn_untracked_reaps(t)));
        }
        i += 1;
    }
    proof {
        lemma_flat_map_all(turns@, |t: RuntimeShutdownEventTurn| turn_untracked_reaps(t));
    }
    out
}

/// Warn of each failed last-run write.
pub fn push_timer_last_run_write_failures(out: &mut Vec<ConsoleMessage>, failed: &Vec<FailedTimerLastRunWrite>)
    ensures
        messages_view(final(out)@) == messages_view(old(out)@) + last_run_failure_msgs(failed@),
{
    let ghost start = messages_view(out@);
    let n = failed.len();
    let mut i: usize = 0;
    while i < n
        invariant
            n == failed@.len(),
            0 <= i <= n,
            messages_view(out@) == start + flat_map(failed@.take(i as int), |f: FailedTimerLastRunWrite| msg_error(last_run_warning_text(f))),
        decreases n - i,
    {
        let f = &failed[i];
        let mut text = String::from_str("peinit warning: recording the last run of timer ");
        append_string(&mut text, &f.schedule);
        text.append(" for service ");
        append_string(&mut text, &f.service);
        text.append(" failed; it will run catch-up again after a reboot\n");
        proof {
            reveal_strlit("peinit warning: recording the last run of timer ");
            reveal_strlit(" for service ");
            reveal_strlit(" failed; it will run catch-up again after a reboot\n");
            assert(text@ == last_run_warning_text(*f));
        }
        push_error(out, text);
        proof {
            lemma_flat_map_step(failed@, |f: FailedTimerLastRunWrite| msg_error(last_run_warning_text(f)), i as int);
        }
        i += 1;
    }
    proof {
        lemma_flat_map_all(failed@, |f: FailedTimerLastRunWrite| msg_error(last_run_warning_text(f)));
    }
}

/// The messages a policy lets through, in order; the rest are dropped,
/// not deferred.
pub fn messages_allowed_by(policy: QuietPolicy, messages: &Vec<ConsoleMessage>) -> (r: Vec<ConsoleMessage>)
    ensures
        messages_view(r@) == allowed_messages(policy, messages_view(messages@)),
{
    let ghost p = |m: ConsoleMessageView| policy_allows(policy.level, policy.console_is_owned, m.severity);
    let ghost all = messages_view(messages@);
    let mut out: Vec<ConsoleMessage> = Vec::new();
    let n = messages.len();
    let mut i: usize = 0;
    while i < n
        invariant
            n == messages@.len(),
            all == messages_view(messages@),
            0 <= i <= n,
            messages_view(out@) == all.take(i as int).filter(p),
            forall|x: ConsoleMessageView| #[trigger] p(x) == policy_allows(policy.level, policy.console_is_owned, x.severity),
        decreases n - i,
    {
        let m = &messages[i];
        proof {
            reveal(Seq::filter);
            assert(all.take(i + 1).drop_last() =~= all.take(i as int));
            assert(all.take(i + 1).last() == m@);
        }
        if policy.allows(m.severity) {
            let ghost before = out@;
            out.push(ConsoleMessage { text: m.text.clone(), severity: m.severity, tag: m.tag });
            proof {
                assert(messages_view(out@) =~= messages_view(before).push(m@));
            }
        }
        i += 1;
    }
    proof {
        assert(all.take(n as int) =~= all);
    }
    out
}

proof fn lemma_empty_pump(w: RuntimeWorkPumpTurn)
    requires
        w.spec_is_empty(),
    ensures
        work_pump_msgs(w) == Seq::<ConsoleMessageView>::empty(),
        work_pump_recs(w) == Seq::<crate::kmes::event::KmesEventView>::empty(),
{
    assert(w.control_operations@ =~= Seq::empty());
    assert(w.control_operation_failures@ =~= Seq::empty());
    assert(w.held_restart_settlements@ =~= Seq::empty());
    assert(w.start_hook_launches@ =~= Seq::empty());
    assert(w.start_hook_launch_failures@ =~= Seq::empty());
    assert(w.post_hook_launches@ =~= Seq::empty());
    assert(w.post_hook_launch_failures@ =~= Seq::empty());
    assert(w.control_launches@ =~= Seq::empty());
    assert(w.health_check_launches@ =~= Seq::empty());
    assert(w.health_check_launch_failures@ =~= Seq::empty());
    assert(w.health_check_launch_cancellations@ =~= Seq::empty());
    assert(w.service_launches@ =~= Seq::empty());
    assert(w.service_launch_failures@ =~= Seq::empty());
    assert(work_pump_msgs(w) =~= Seq::<ConsoleMessageView>::empty());
    assert(work_pump_recs(w) =~= Seq::<crate::kmes::event::KmesEventView>::empty());
}

proof fn lemma_empty_maintenance(m: SupervisorOperationMaintenanceTurn)
    requires
        m.spec_is_empty(),
    ensures
        maintenance_recs(m) == Seq::<crate::kmes::event::KmesEventView>::empty(),
{
    assert(m.operation_timeouts@ =~= Seq::empty());
    assert(m.service_main_start_timeouts@ =~= Seq::empty());
    assert(m.graph_events@ =~= Seq::empty());
    assert(m.relationship_audit_events@ =~= Seq::empty());
    assert(m.start_dispatches@ =~= Seq::empty());
    assert(maintenance_recs(m) =~= Seq::<crate::kmes::event::KmesEventView>::empty());
}

/// A turn of nothing but calendar timers says and records only what the
/// timers do.
proof fn lemma_calendar_only_turn(
    w1: RuntimeWorkPumpTurn,
    m1: SupervisorOperationMaintenanceTurn,
    w2: RuntimeWorkPumpTurn,
    m2: SupervisorOperationMaintenanceTurn,
    calendar_turns: Seq<(i32, RuntimeCalendarTimerTurn)>,
)
    requires
        w1.spec_is_empty(),
        w2.spec_is_empty(),
        m1.spec_is_empty(),
        m2.spec_is_empty(),
    ensures
        runtime_loop_msgs(w1, Seq::empty(), w2, calendar_turns) == calendar_turns_msgs(calendar_turns),
        runtime_loop_recs(w1, m1, Seq::empty(), w2, m2, calendar_turns) == calendar_turns_recs(calendar_turns),
{
    lemma_empty_pump(w1);
    lemma_empty_pump(w2);
    lemma_empty_maintenance(m1);
    lemma_empty_maintenance(m2);
    assert(event_turns_msgs(Seq::empty()) =~= Seq::<ConsoleMessageView>::empty());
    assert(event_turns_recs(Seq::empty()) =~= Seq::<crate::kmes::event::KmesEventView>::empty());
    assert(runtime_loop_msgs(w1, Seq::empty(), w2, calendar_turns) =~= calendar_turns_msgs(calendar_turns));
    assert(runtime_loop_recs(w1, m1, Seq::empty(), w2, m2, calendar_turns) =~= calendar_turns_recs(calendar_turns));
}

/// The stamp a wait flush takes from the two clock readings, monotonic then
/// wall clock; a reading that failed is the loop's clock error.
pub fn wait_flush_stamp(monotonic_ns: Result<u64, BoundaryError>, realtime_ns: Result<u64, BoundaryError>) -> (r: Result<
    (u64, u64),
    RuntimeShutdownLoopError,
>)
    ensures
        r == match (monotonic_ns, realtime_ns) {
            (Ok(m), Ok(t)) => Ok::<(u64, u64), RuntimeShutdownLoopError>((m, t)),
            (Err(e), _) => Err::<(u64, u64), RuntimeShutdownLoopError>(RuntimeShutdownLoopError::Clock(e)),
            (Ok(_), Err(e)) => Err::<(u64, u64), RuntimeShutdownLoopError>(RuntimeShutdownLoopError::Clock(e)),
        },
{
    match monotonic_ns {
        Err(e) => Err(RuntimeShutdownLoopError::Clock(e)),
        Ok(m) => match realtime_ns {
            Ok(t) => Ok((m, t)),
            Err(e) => Err(RuntimeShutdownLoopError::Clock(e)),
        },
    }
}

impl LinuxShutdownRuntime {
    pub closed spec fn wf(&self) -> bool {
        &&& self.calendar_timers.wf()
        &&& self.timer_last_run_writes.wf()
    }

    pub closed spec fn spec_config(&self) -> LinuxRuntimeConfig {
        self.config
    }

    pub closed spec fn spec_quiet(&self) -> QuietLevel {
        self.quiet
    }

    pub closed spec fn spec_quiet_policy(&self) -> QuietPolicy {
        self.quiet_policy
    }

    pub closed spec fn control_view(&self) -> Seq<ConnectionRecord> {
        self.control_connections.view()
    }

    pub closed spec fn spec_max_control_connections(&self) -> usize {
        self.control_connections.spec_max_connections()
    }

    pub closed spec fn jobs_view(&self) -> Seq<ConnectionRecord> {
        self.jobs_channel.connections_view()
    }

    pub closed spec fn spec_max_jobs_connections(&self) -> usize {
        self.jobs_channel.spec_max_connections()
    }

    pub closed spec fn spec_jobs_connection_timeout_secs(&self) -> u64 {
        self.jobs_connection_timeout_secs
    }

    pub closed spec fn writes_view(&self) -> Seq<OutstandingWrite> {
        self.timer_last_run_writes.view()
    }

    pub closed spec fn calendar_view(&self) -> Seq<LinuxCalendarTimerEntry> {
        self.calendar_timers.view()
    }

    pub closed spec fn spec_dropped_kmes_events(&self) -> u64 {
        self.dropped_kmes_events
    }

    pub closed spec fn spec_jfs_device(&self) -> Option<RuntimeJfsDevice> {
        self.jfs_device
    }

    pub closed spec fn spec_control_listener(&self) -> BoundSocket {
        self.control_listener
    }

    pub closed spec fn spec_notify_socket(&self) -> BoundSocket {
        self.notify_socket
    }

    pub closed spec fn spec_jobs_listener(&self) -> BoundSocket {
        self.jobs_channel.spec_listener()
    }

    /// The runtime over the sockets the host bound: no connections yet, no
    /// timers armed, nothing outstanding, and a console policy that assumes
    /// no service owns the console until the first turn looks. The notify
    /// socket is the one bound at the configured path, the path Phase 1 told
    /// services about.
    pub fn with_listeners(config: LinuxRuntimeConfig, control_listener: BoundSocket, notify_fd: i32, jobs_listener: BoundSocket) -> (r: Self)
        ensures
            r.wf(),
            r.spec_config() == config,
            r.spec_quiet() == config.quiet,
            r.spec_quiet_policy() == (QuietPolicy { level: config.quiet, console_is_owned: false }),
            r.control_view() == Seq::<ConnectionRecord>::empty(),
            r.spec_max_control_connections() == config.max_control_connections,
            r.jobs_view() == Seq::<ConnectionRecord>::empty(),
            r.spec_max_jobs_connections() == config.max_jobs_connections,
            r.spec_jobs_connection_timeout_secs() == DEFAULT_JOBS_CONNECTION_TIMEOUT_SECS,
            r.writes_view() == Seq::<OutstandingWrite>::empty(),
            r.calendar_view() == Seq::<LinuxCalendarTimerEntry>::empty(),
            r.spec_dropped_kmes_events() == 0,
            r.spec_jfs_device() is None,
            r.spec_control_listener() == control_listener,
            r.spec_notify_socket().fd == notify_fd,
            r.spec_notify_socket().path@ == config.notify_socket_path@,
            r.spec_jobs_listener() == jobs_listener,
    {
        let control_connections = ConnectionTable::new(config.max_control_connections);
        let jobs_channel = RuntimeJobsChannelTable::new(jobs_listener, config.max_jobs_connections);
        let quiet = config.quiet;
        let notify_socket = BoundSocket { fd: notify_fd, path: config.notify_socket_path.clone() };
        LinuxShutdownRuntime {
            control_listener,
            control_connections,
            notify_socket,
            calendar_timers: LinuxCalendarTimerTable::new(),
            quiet,
            quiet_policy: QuietPolicy::new(quiet, false),
            jobs_channel,
            jobs_connection_timeout_secs: DEFAULT_JOBS_CONNECTION_TIMEOUT_SECS,
            timer_last_run_writes: TimerLastRunWrites::new(),
            dropped_kmes_events: 0,
            jfs_device: None,
            config,
        }
    }

    pub fn config(&self) -> (c: &LinuxRuntimeConfig)
        ensures
            *c == self.spec_config(),
    {
        &self.config
    }

    pub fn control_socket_path(&self) -> (p: &String)
        ensures
            *p == self.spec_control_listener().path,
    {
        &self.control_listener.path
    }

    pub fn active_control_connections(&self) -> (n: usize)
        ensures
            n == self.control_view().len(),
    {
        self.control_connections.len()
    }

    pub fn notify_socket_path(&self) -> (p: &String)
        ensures
            *p == self.spec_notify_socket().path,
    {
        &self.notify_socket.path
    }

    pub fn jobs_socket_path(&self) -> (p: &String)
        ensures
            *p == self.spec_jobs_listener().path,
    {
        &self.jobs_channel.listener().path
    }

    pub fn active_jobs_connections(&self) -> (n: usize)
        ensures
            n == self.jobs_view().len(),
    {
        self.jobs_channel.active_connections()
    }

    pub fn quiet_policy(&self) -> (p: QuietPolicy)
        ensures
            p == self.spec_quiet_policy(),
    {
        self.quiet_policy
    }

    /// Re-evaluate the console policy against the service table, once per
    /// turn, so every message of the turn is judged against one answer.
    pub fn refresh_quiet_policy(&mut self, services: &ServiceTable)
        requires
            old(self).wf(),
        ensures
            final(self).wf(),
            final(self).spec_quiet_policy() == (QuietPolicy {
                level: old(self).spec_quiet(),
                console_is_owned: old(self).spec_quiet().spec_respects_terminal_ownership() && console_owned(*services),
            }),
            final(self).spec_quiet() == old(self).spec_quiet(),
            final(self).spec_config() == old(self).spec_config(),
            final(self).control_view() == old(self).control_view(),
            final(self).jobs_view() == old(self).jobs_view(),
            final(self).writes_view() == old(self).writes_view(),
            final(self).calendar_view() == old(self).calendar_view(),
    {
        self.quiet_policy = QuietPolicy::evaluate(self.quiet, services);
    }

    /// Take up the limits and the security descriptor a configuration
    /// reload may have changed. Connections already open stay open.
    pub fn sync_reloadable_config(&mut self, control: &SupervisorControlLimits, control_security: &ControlSecurityDescriptor, jobs: &JobsSocketLimits)
        requires
            old(self).wf(),
        ensures
            final(self).wf(),
            final(self).spec_max_control_connections() == control.max_connections,
            final(self).spec_config().max_control_connections == control.max_connections,
            final(self).spec_config().control_limits.max_request_bytes == control.max_request_bytes,
            final(self).spec_config().control_limits.connection_timeout_secs == control.connection_timeout_secs,
            final(self).spec_config().control_limits.max_read_bytes == old(self).spec_config().control_limits.max_read_bytes,
            final(self).spec_config().control_security == *control_security,
            final(self).spec_max_jobs_connections() == jobs.max_connections,
            final(self).spec_config().max_jobs_connections == jobs.max_connections,
            final(self).spec_jobs_connection_timeout_secs() == jobs.connection_timeout_secs,
            final(self).spec_config().control_socket_path == old(self).spec_config().control_socket_path,
            final(self).spec_config().jobs_socket_path == old(self).spec_config().jobs_socket_path,
            final(self).spec_config().notify_socket_path == old(self).spec_config().notify_socket_path,
            final(self).spec_config().max_events == old(self).spec_config().max_events,
            final(self).spec_config().quiet == old(self).spec_config().quiet,
            final(self).control_view() == old(self).control_view(),
            final(self).jobs_view() == old(self).jobs_view(),
            final(self).writes_view() == old(self).writes_view(),
            final(self).calendar_view() == old(self).calendar_view(),
            final(self).spec_quiet_policy() == old(self).spec_quiet_policy(),
    {
        self.control_connections.set_max_connections(control.max_connections);
        self.config.max_control_connections = control.max_connections;
        self.config.control_limits.max_request_bytes = control.max_request_bytes;
        self.config.control_limits.connection_timeout_secs = control.connection_timeout_secs;
        self.config.control_security = clone_security(control_security);
        self.jobs_channel.set_max_jobs_connections(jobs.max_connections);
        self.config.max_jobs_connections = jobs.max_connections;
        self.jobs_connection_timeout_secs = jobs.connection_timeout_secs;
    }

    /// The limits a control connection is read under this turn: the read
    /// size is the runtime's own, the rest is what the registry configures.
    pub fn runtime_control_limits(&self, control: &SupervisorControlLimits) -> (l: RuntimeControlLimits)
        ensures
            l == (RuntimeControlLimits {
                max_read_bytes: self.spec_config().control_limits.max_read_bytes,
                max_request_bytes: control.max_request_bytes,
                connection_timeout_secs: control.connection_timeout_secs,
            }),
    {
        RuntimeControlLimits::new(
            self.config.control_limits.max_read_bytes,
            control.max_request_bytes,
            control.connection_timeout_secs,
        )
    }

    /// Take a connection the control listener accepted and add it to the
    /// wait set. `Ok(None)` when the table is full or already holds the fd;
    /// when registering fails the connection leaves the table again.
    pub fn admit_control_connection<R: RuntimeEventRegistrar>(&mut self, registrar: &mut R, fd: i32, accepted_at_ns: u64) -> (r: Result<
        Option<RuntimeEventSource>,
        RuntimeEventRegistrationError,
    >)
        requires
            old(self).wf(),
            fd >= 0,
        ensures
            final(self).wf(),
            final(self).spec_max_control_connections() == old(self).spec_max_control_connections(),
            final(self).jobs_view() == old(self).jobs_view(),
            final(self).writes_view() == old(self).writes_view(),
            final(self).calendar_view() == old(self).calendar_view(),
            final(self).spec_config() == old(self).spec_config(),
            ({
                let fits = old(self).control_view().len() < old(self).spec_max_control_connections()
                    && !has_fd(old(self).control_view(), fd);
                let admitted = old(self).control_view().push(
                    ConnectionRecord { fd, last_activity_ns: accepted_at_ns, pending_wait: false },
                );
                let asked = RuntimeEventSource::ControlConnection { fd };
                match r {
                    Ok(None) => !fits && final(self).control_view() == old(self).control_view()
                        && *final(registrar) == *old(registrar),
                    Ok(Some(source)) => fits && source == asked && final(self).control_view() == admitted
                        && R::registers(*old(registrar), *final(registrar), fd, asked, Ok(())),
                    Err(e) => fits && final(self).control_view() == crate::connections::without_fd(admitted, fd)
                        && R::registers(*old(registrar), *final(registrar), fd, asked, Err(e)),
                }
            }),
    {
        if !self.control_connections.accept(fd, accepted_at_ns) {
            return Ok(None);
        }
        let source = RuntimeEventSource::ControlConnection { fd };
        let answer = registrar.register_source(fd, source);
        match answer {
            Ok(()) => {
                assert(answer->Ok_0 == ());
                Ok(Some(source))
            },
            Err(error) => {
                self.control_connections.remove(fd);
                Err(error)
            },
        }
    }

    /// Note that a control connection was read from, and whether it is now
    /// parked on an operation wait.
    pub fn record_control_activity(&mut self, fd: i32, now_ns: u64, pending_wait: bool)
        requires
            old(self).wf(),
        ensures
            final(self).wf(),
            final(self).control_view().len() == old(self).control_view().len(),
            forall|j: int| 0 <= j < old(self).control_view().len() ==> #[trigger] final(self).control_view()[j]
                == if old(self).control_view()[j].fd == fd {
                ConnectionRecord { fd, last_activity_ns: now_ns, pending_wait }
            } else {
                old(self).control_view()[j]
            },
            final(self).spec_max_control_connections() == old(self).spec_max_control_connections(),
            final(self).jobs_view() == old(self).jobs_view(),
            final(self).spec_config() == old(self).spec_config(),
    {
        self.control_connections.record_activity(fd, now_ns, pending_wait);
    }

    /// Drop a control connection its turn closed.
    pub fn remove_control_connection(&mut self, fd: i32) -> (r: bool)
        requires
            old(self).wf(),
        ensures
            final(self).wf(),
            r == has_fd(old(self).control_view(), fd),
            final(self).control_view() == crate::connections::without_fd(old(self).control_view(), fd),
            final(self).spec_max_control_connections() == old(self).spec_max_control_connections(),
            final(self).jobs_view() == old(self).jobs_view(),
            final(self).spec_config() == old(self).spec_config(),
    {
        self.control_connections.remove(fd)
    }

    /// Take a connection the jobs listener accepted and add it to the wait
    /// set, as the jobs channel does.
    pub fn admit_jobs_connection<R: RuntimeEventRegistrar>(&mut self, registrar: &mut R, fd: i32, accepted_at_ns: u64) -> (r: Result<
        Option<RuntimeEventSource>,
        crate::event_loop::model::RuntimeJobsChannelError,
    >)
        requires
            old(self).wf(),
        ensures
            final(self).wf(),
            final(self).spec_max_jobs_connections() == old(self).spec_max_jobs_connections(),
            final(self).spec_jobs_listener() == old(self).spec_jobs_listener(),
            final(self).control_view() == old(self).control_view(),
            final(self).writes_view() == old(self).writes_view(),
            final(self).calendar_view() == old(self).calendar_view(),
            final(self).spec_config() == old(self).spec_config(),
            ({
                let fits = old(self).jobs_view().len() < old(self).spec_max_jobs_connections()
                    && !has_fd(old(self).jobs_view(), fd);
                let admitted = old(self).jobs_view().push(
                    ConnectionRecord { fd, last_activity_ns: accepted_at_ns, pending_wait: false },
                );
                let asked = RuntimeEventSource::JobsConnection { fd };
                match r {
                    Ok(None) => !fits && final(self).jobs_view() == old(self).jobs_view()
                        && *final(registrar) == *old(registrar),
                    Ok(Some(source)) => fits && fd >= 0 && source == asked && final(self).jobs_view() == admitted
                        && R::registers(*old(registrar), *final(registrar), fd, asked, Ok(())),
                    Err(crate::event_loop::model::RuntimeJobsChannelError::Registration(e)) => fits && if fd < 0 {
                        &&& e matches RuntimeEventRegistrationError::Register { fd: efd, source, message }
                        &&& efd == fd && source == RuntimeEventSource::JobsListener
                        &&& message@ == crate::jobs::negative_descriptor_text(fd)
                        &&& final(self).jobs_view() == admitted
                        &&& *final(registrar) == *old(registrar)
                    } else {
                        &&& final(self).jobs_view() == crate::connections::without_fd(admitted, fd)
                        &&& R::registers(*old(registrar), *final(registrar), fd, asked, Err(e))
                    },
                    Err(_) => false,
                }
            }),
    {
        self.jobs_channel.admit_jobs_connection(registrar, fd, accepted_at_ns)
    }

    /// Note that a jobs connection was read from, and whether it is now
    /// parked on a wait for a job.
    pub fn record_jobs_activity(&mut self, fd: i32, now_ns: u64, pending_wait: bool)
        requires
            old(self).wf(),
        ensures
            final(self).wf(),
            final(self).jobs_view().len() == old(self).jobs_view().len(),
            forall|j: int| 0 <= j < old(self).jobs_view().len() ==> #[trigger] final(self).jobs_view()[j]
                == if old(self).jobs_view()[j].fd == fd {
                ConnectionRecord { fd, last_activity_ns: now_ns, pending_wait }
            } else {
                old(self).jobs_view()[j]
            },
            final(self).spec_max_jobs_connections() == old(self).spec_max_jobs_connections(),
            final(self).control_view() == old(self).control_view(),
            final(self).spec_config() == old(self).spec_config(),
    {
        self.jobs_channel.record_jobs_activity(fd, now_ns, pending_wait);
    }

    /// Drop a jobs connection its turn closed.
    pub fn remove_jobs_connection(&mut self, fd: i32) -> (r: bool)
        requires
            old(self).wf(),
        ensures
            final(self).wf(),
            r == has_fd(old(self).jobs_view(), fd),
            final(self).jobs_view() == crate::connections::without_fd(old(self).jobs_view(), fd),
            final(self).spec_max_jobs_connections() == old(self).spec_max_jobs_connections(),
            final(self).control_view() == old(self).control_view(),
            final(self).spec_config() == old(self).spec_config(),
    {
        self.jobs_channel.remove_jobs_connection(fd)
    }

    /// Whether any jobs connection is parked on a wait.
    pub fn has_pending_jobs_waits(&self) -> (r: bool)
        ensures
            r == exists|j: int| 0 <= j < self.jobs_view().len() && (#[trigger] self.jobs_view()[j]).pending_wait,
    {
        let r = self.jobs_channel.has_pending_jobs_waits();
        proof {
            assert(self.jobs_view() == self.jobs_channel.connections_view());
        }
        r
    }

    /// Close the control connections idle at `now_ns`, taking each out of
    /// the wait set; the fds come back in table order.
    pub fn close_idle_control_connections<R: RuntimeEventRegistrar>(&mut self, registrar: &mut R, now_ns: u64) -> (fds: Vec<i32>)
        requires
            old(self).wf(),
        ensures
            final(self).wf(),
            fds@ == idle_fds_of(old(self).control_view(), now_ns, old(self).spec_config().control_limits.connection_timeout_secs),
            final(self).control_view() == live_at(old(self).control_view(), now_ns, old(self).spec_config().control_limits.connection_timeout_secs),
            exists|states: Seq<R>, answers: Seq<Result<(), RuntimeEventRegistrationError>>|
                unregistered_each(*old(registrar), *final(registrar), fds@, states, answers),
            final(self).spec_max_control_connections() == old(self).spec_max_control_connections(),
            final(self).jobs_view() == old(self).jobs_view(),
            final(self).writes_view() == old(self).writes_view(),
            final(self).calendar_view() == old(self).calendar_view(),
            final(self).spec_config() == old(self).spec_config(),
    {
        let timeout_secs = self.config.control_limits.connection_timeout_secs;
        let fds = self.control_connections.close_idle(now_ns, timeout_secs);
        unregister_each(registrar, &fds);
        fds
    }

    /// Close the jobs connections idle at `now_ns`.
    pub fn close_idle_jobs_connections<R: RuntimeEventRegistrar>(&mut self, registrar: &mut R, now_ns: u64) -> (fds: Vec<i32>)
        requires
            old(self).wf(),
        ensures
            final(self).wf(),
            fds@ == idle_fds_of(old(self).jobs_view(), now_ns, old(self).spec_jobs_connection_timeout_secs()),
            final(self).jobs_view() == live_at(old(self).jobs_view(), now_ns, old(self).spec_jobs_connection_timeout_secs()),
            exists|states: Seq<R>, answers: Seq<Result<(), RuntimeEventRegistrationError>>|
                unregistered_each(*old(registrar), *final(registrar), fds@, states, answers),
            final(self).spec_max_jobs_connections() == old(self).spec_max_jobs_connections(),
            final(self).control_view() == old(self).control_view(),
            final(self).writes_view() == old(self).writes_view(),
            final(self).calendar_view() == old(self).calendar_view(),
            final(self).spec_config() == old(self).spec_config(),
    {
        let timeout_secs = self.jobs_connection_timeout_secs;
        self.jobs_channel.close_idle_jobs_connections(registrar, now_ns, timeout_secs)
    }

    /// When the next control connection goes idle.
    pub fn next_control_idle_deadline_ns(&self) -> (d: Option<u64>)
        ensures
            d == next_idle_deadline_of(self.control_view(), self.spec_config().control_limits.connection_timeout_secs),
    {
        let timeout_secs = self.config.control_limits.connection_timeout_secs;
        self.control_connections.next_idle_deadline_ns(timeout_secs)
    }

    /// The earliest deadline the loop must wake for: a control or jobs
    /// connection going idle, or the supervisor's next operation
    /// maintenance.
    pub open spec fn spec_wake_deadline(&self, operation_maintenance_deadline_ns: Option<u64>) -> Option<u64> {
        earliest(
            earliest(
                next_idle_deadline_of(self.control_view(), self.spec_config().control_limits.connection_timeout_secs),
                next_idle_deadline_of(self.jobs_view(), self.spec_jobs_connection_timeout_secs()),
            ),
            operation_maintenance_deadline_ns,
        )
    }

    /// How long this turn's wait may last.
    pub fn runtime_wait_timeout_ms(&self, operation_maintenance_deadline_ns: Option<u64>, now_ns: u64) -> (ms: i32)
        ensures
            ms == spec_deadline_wait_timeout_ms(self.spec_wake_deadline(operation_maintenance_deadline_ns), now_ns),
    {
        let control = self.next_control_idle_deadline_ns();
        let jobs = self.jobs_channel.next_jobs_idle_deadline_ns(self.jobs_connection_timeout_secs);
        let deadline = earliest_deadline(earliest_deadline(control, jobs), operation_maintenance_deadline_ns);
        deadline_wait_timeout_ms(deadline, now_ns)
    }

    /// Arm a calendar timer the host registered.
    pub fn insert_calendar_timer(&mut self, entry: LinuxCalendarTimerEntry)
        requires
            old(self).wf(),
        ensures
            final(self).wf(),
            crate::linux::calendar::entry_for(final(self).calendar_view(), entry.fd) == Some(entry),
            forall|fd: i32| fd != entry.fd ==> #[trigger] crate::linux::calendar::entry_for(final(self).calendar_view(), fd)
                == crate::linux::calendar::entry_for(old(self).calendar_view(), fd),
            final(self).writes_view() == old(self).writes_view(),
            final(self).control_view() == old(self).control_view(),
            final(self).jobs_view() == old(self).jobs_view(),
            final(self).spec_config() == old(self).spec_config(),
    {
        self.calendar_timers.insert(entry);
    }

    /// Disarm the calendar timer on `fd`, handing its entry back.
    pub fn remove_calendar_timer(&mut self, fd: i32) -> (r: Option<LinuxCalendarTimerEntry>)
        requires
            old(self).wf(),
        ensures
            final(self).wf(),
            r == crate::linux::calendar::entry_for(old(self).calendar_view(), fd),
            crate::linux::calendar::entry_for(final(self).calendar_view(), fd) is None,
            forall|other: i32| other != fd ==> #[trigger] crate::linux::calendar::entry_for(final(self).calendar_view(), other)
                == crate::linux::calendar::entry_for(old(self).calendar_view(), other),
            final(self).writes_view() == old(self).writes_view(),
            final(self).control_view() == old(self).control_view(),
            final(self).jobs_view() == old(self).jobs_view(),
            final(self).spec_config() == old(self).spec_config(),
    {
        self.calendar_timers.remove(fd)
    }

    /// What the read of the calendar timer on `fd` calls for.
    pub fn calendar_timer_step(&self, fd: i32, read: crate::linux::calendar::LinuxTimerFdRead, realtime_now_ns: u64) -> (r: Result<
        crate::linux::calendar::CalendarTimerStep,
        crate::linux::calendar::LinuxCalendarTimerError,
    >)
        requires
            self.wf(),
        ensures
            match crate::linux::calendar::entry_for(self.calendar_view(), fd) {
                None => r == Err::<crate::linux::calendar::CalendarTimerStep, crate::linux::calendar::LinuxCalendarTimerError>(
                    crate::linux::calendar::LinuxCalendarTimerError::UnknownTimer { fd },
                ),
                Some(e) => r == Ok::<crate::linux::calendar::CalendarTimerStep, crate::linux::calendar::LinuxCalendarTimerError>(
                    crate::linux::calendar::spec_calendar_timer_step(read, e.next_scheduled_ns, e.jitter_secs, realtime_now_ns),
                ),
            },
    {
        self.calendar_timers.step_for(fd, read, realtime_now_ns)
    }

    /// Arm the calendar timer on `fd` for the occurrence the schedule gives
    /// next, jittered by `random`; the armed deadline comes back for the
    /// host to set on the timerfd.
    pub fn rearm_calendar_timer(&mut self, fd: i32, next_scheduled_ns: u64, random: u64) -> (r: Result<u64, crate::linux::calendar::LinuxCalendarTimerError>)
        requires
            old(self).wf(),
        ensures
            final(self).wf(),
            match crate::linux::calendar::entry_for(old(self).calendar_view(), fd) {
                None => r == Err::<u64, crate::linux::calendar::LinuxCalendarTimerError>(
                    crate::linux::calendar::LinuxCalendarTimerError::UnknownTimer { fd },
                ) && final(self).calendar_view() == old(self).calendar_view(),
                Some(e) => match crate::event_loop::timing::spec_jittered_deadline_ns(next_scheduled_ns, e.jitter_secs, random) {
                    Err(j) => r == Err::<u64, crate::linux::calendar::LinuxCalendarTimerError>(
                        crate::linux::calendar::LinuxCalendarTimerError::Jitter(j),
                    ) && final(self).calendar_view() == old(self).calendar_view(),
                    Ok(armed) => r == Ok::<u64, crate::linux::calendar::LinuxCalendarTimerError>(armed)
                        && crate::linux::calendar::entry_for(final(self).calendar_view(), fd) == Some(LinuxCalendarTimerEntry {
                            next_scheduled_ns,
                            armed_deadline_ns: armed,
                            ..e
                        })
                        && forall|other: i32| other != fd ==> #[trigger] crate::linux::calendar::entry_for(final(self).calendar_view(), other)
                            == crate::linux::calendar::entry_for(old(self).calendar_view(), other),
                },
            },
            final(self).writes_view() == old(self).writes_view(),
            final(self).control_view() == old(self).control_view(),
            final(self).jobs_view() == old(self).jobs_view(),
            final(self).spec_config() == old(self).spec_config(),
    {
        self.calendar_timers.rearm(fd, next_scheduled_ns, random)
    }

    /// Register what Phase 1 handed over: the journalling device, when it
    /// opened one, becomes an event source of the loop. A device that cannot
    /// be registered is reported and dropped, not fatal.
    pub fn register_phase1_infrastructure<R: RuntimeEventRegistrar>(&mut self, registrar: &mut R, jfs_device: Option<(i32, String)>) -> (r: Phase1InfrastructureRegistration)
        requires
            old(self).wf(),
        ensures
            final(self).wf(),
            match jfs_device {
                None => r.jfs == Phase1JfsRegistration::Unavailable && final(self).spec_jfs_device() == old(self).spec_jfs_device(),
                Some((fd, path)) => match r.jfs {
                    Phase1JfsRegistration::Registered { fd: rfd, path: rpath } => {
                        &&& rfd == fd && rpath@ == path@
                        &&& final(self).spec_jfs_device() matches Some(d)
                        &&& d.spec_fd() == fd && d.spec_path() == path@
                        &&& R::registers(*old(registrar), *final(registrar), fd, RuntimeEventSource::JfsDevice { fd }, Ok(()))
                    },
                    Phase1JfsRegistration::RegisterFailed { fd: rfd, path: rpath, error } => rfd == fd && rpath@ == path@
                        && final(self).spec_jfs_device() == old(self).spec_jfs_device()
                        && R::registers(*old(registrar), *final(registrar), fd, RuntimeEventSource::JfsDevice { fd }, Err(error)),
                    Phase1JfsRegistration::Unavailable => false,
                },
            },
            jfs_device is None ==> *final(registrar) == *old(registrar),
            final(self).control_view() == old(self).control_view(),
            final(self).jobs_view() == old(self).jobs_view(),
            final(self).writes_view() == old(self).writes_view(),
            final(self).calendar_view() == old(self).calendar_view(),
            final(self).spec_config() == old(self).spec_config(),
    {
        let jfs = match jfs_device {
            Some((fd, path)) => {
                let reported = path.clone();
                match register_phase1_jfs_device(fd, path, registrar) {
                    Ok(registered) => {
                        self.jfs_device = Some(registered);
                        Phase1JfsRegistration::Registered { fd, path: reported }
                    },
                    Err(error) => Phase1JfsRegistration::RegisterFailed { fd, path: reported, error },
                }
            },
            None => Phase1JfsRegistration::Unavailable,
        };
        Phase1InfrastructureRegistration { jfs }
    }

    /// The times a flush of control waits is stamped with, monotonic then
    /// wall clock: read only when a control connection is parked on a wait,
    /// and zero otherwise, so a loop with nothing waiting never reads the
    /// clocks for it.
    pub fn control_wait_flush_times<C: RuntimeClock>(&self, clock: &mut C) -> (r: Result<(u64, u64), RuntimeShutdownLoopError>)
        ensures
            !(exists|j: int| 0 <= j < self.control_view().len() && (#[trigger] self.control_view()[j]).pending_wait)
                ==> r == Ok::<(u64, u64), RuntimeShutdownLoopError>((0u64, 0u64)),
            r is Err ==> r->Err_0 is Clock,
    {
        if !self.control_connections.has_pending_waits() {
            proof {
                assert(self.control_view() == self.control_connections.view());
            }
            return Ok((0, 0));
        }
        match clock.monotonic_ns() {
            Err(e) => Err(RuntimeShutdownLoopError::Clock(e)),
            Ok(monotonic_ns) => wait_flush_stamp(Ok(monotonic_ns), clock.realtime_ns()),
        }
    }

    /// The times a flush of jobs waits is stamped with: none when no jobs
    /// connection is parked on a wait, and then nothing is flushed.
    pub fn jobs_wait_flush_times<C: RuntimeClock>(&self, clock: &mut C) -> (r: Result<Option<(u64, u64)>, RuntimeShutdownLoopError>)
        ensures
            (exists|j: int| 0 <= j < self.jobs_view().len() && (#[trigger] self.jobs_view()[j]).pending_wait)
                <==> (r matches Ok(Some(_)) || r is Err),
            r is Err ==> r->Err_0 is Clock,
    {
        if !self.has_pending_jobs_waits() {
            return Ok(None);
        }
        let stamp = match clock.monotonic_ns() {
            Err(e) => Err(RuntimeShutdownLoopError::Clock(e)),
            Ok(monotonic_ns) => wait_flush_stamp(Ok(monotonic_ns), clock.realtime_ns()),
        };
        match stamp {
            Ok(times) => Ok(Some(times)),
            Err(e) => Err(e),
        }
    }

    /// How many audit events the ring has refused this boot.
    pub fn dropped_kmes_events(&self) -> (n: u64)
        ensures
            n == self.spec_dropped_kmes_events(),
    {
        self.dropped_kmes_events
    }

    /// Take up the count an emission advanced.
    pub fn set_dropped_kmes_events(&mut self, n: u64)
        requires
            old(self).wf(),
        ensures
            final(self).wf(),
            final(self).spec_dropped_kmes_events() == n,
            final(self).control_view() == old(self).control_view(),
            final(self).jobs_view() == old(self).jobs_view(),
            final(self).writes_view() == old(self).writes_view(),
            final(self).calendar_view() == old(self).calendar_view(),
            final(self).spec_config() == old(self).spec_config(),
    {
        self.dropped_kmes_events = n;
    }

    /// Audit and announce the calendar timers that fired during boot, before
    /// the loop's first turn: their records go to the ring, and what they say
    /// on the console comes back for the host to write. Nothing at all is
    /// done for none.
    pub fn emit_boot_calendar_timer_turns<S: KmesEventSink>(&mut self, sink: &mut S, calendar_turns: &Vec<(i32, RuntimeCalendarTimerTurn)>) -> (r: Result<
        Vec<ConsoleMessage>,
        RuntimeShutdownLoopError,
    >)
        requires
            old(self).wf(),
            old(self).spec_dropped_kmes_events() + calendar_turns_recs(calendar_turns@).len() <= u64::MAX,
        ensures
            final(self).wf(),
            calendar_turns@.len() == 0 ==> r is Ok && r->Ok_0@.len() == 0
                && final(self).spec_dropped_kmes_events() == old(self).spec_dropped_kmes_events(),
            match r {
                Ok(messages) => messages_view(messages@) == allowed_messages(
                    old(self).spec_quiet_policy(),
                    calendar_turns_msgs(calendar_turns@),
                ),
                Err(e) => e is Kmes,
            },
            exists|replies: Seq<(Result<(), BoundaryError>, Result<(), BoundaryError>)>, states: Seq<S>|
                #[trigger] sink_handed(
                    *old(sink),
                    *final(sink),
                    calendar_turns_recs(calendar_turns@),
                    old(self).spec_dropped_kmes_events(),
                    replies,
                    states,
                ) && {
                    let st = emission(calendar_turns_recs(calendar_turns@), replies, old(self).spec_dropped_kmes_events());
                    &&& final(self).spec_dropped_kmes_events() == st.count
                    &&& (r is Ok <==> st.failed is None)
                    &&& (r is Err ==> r == Err::<Vec<ConsoleMessage>, RuntimeShutdownLoopError>(
                        RuntimeShutdownLoopError::Kmes(st.failed->Some_0),
                    ))
                },
            final(self).writes_view() == old(self).writes_view(),
            final(self).calendar_view() == old(self).calendar_view(),
            final(self).control_view() == old(self).control_view(),
            final(self).jobs_view() == old(self).jobs_view(),
            final(self).spec_config() == old(self).spec_config(),
            final(self).spec_quiet_policy() == old(self).spec_quiet_policy(),
    {
        if calendar_turns.len() == 0 {
            proof {
                let recs = calendar_turns_recs(calendar_turns@);
                assert(calendar_turns@ =~= Seq::<(i32, RuntimeCalendarTimerTurn)>::empty());
                assert(recs =~= Seq::<crate::kmes::event::KmesEventView>::empty());
                let none = Seq::<(Result<(), BoundaryError>, Result<(), BoundaryError>)>::empty();
                assert(sink_went_through(seq![*sink], emission(recs, none, self.dropped_kmes_events).handed, emission(recs, none, self.dropped_kmes_events).answers));
                assert(sink_handed(*old(sink), *sink, recs, self.dropped_kmes_events, none, seq![*sink]));
            }
            return Ok(Vec::new());
        }
        let quiet = RuntimeWorkPumpTurn::empty();
        let idle = SupervisorOperationMaintenanceTurn::empty();
        let no_events: Vec<RuntimeShutdownEventTurn> = Vec::new();
        proof {
            lemma_calendar_only_turn(quiet, idle, quiet, idle, calendar_turns@);
            assert(no_events@ =~= Seq::<RuntimeShutdownEventTurn>::empty());
        }
        let mut dropped_events = self.dropped_kmes_events;
        let emitted = emit_runtime_loop_kmes_events(
            sink,
            &mut dropped_events,
            &quiet,
            &idle,
            &no_events,
            &quiet,
            &idle,
            calendar_turns,
        );
        match emitted {
            Ok(_) => {
                self.dropped_kmes_events = dropped_events;
            },
            Err(e) => {
                self.dropped_kmes_events = dropped_events;
                return Err(e);
            },
        }
        let mut messages: Vec<ConsoleMessage> = Vec::new();
        collect_runtime_loop_console_messages(&quiet, &no_events, &quiet, calendar_turns, &mut messages);
        proof {
            assert(messages_view(messages@) =~= calendar_turns_msgs(calendar_turns@));
        }
        Ok(messages_allowed_by(self.quiet_policy, &messages))
    }

    /// Remember the children this turn's calendar timers forked, so their
    /// exits can be matched; each is named by the timer whose firing forked
    /// it.
    pub fn record_queued_timer_last_run_writes(&mut self, calendar_turns: &Vec<(i32, RuntimeCalendarTimerTurn)>)
        requires
            old(self).wf(),
        ensures
            final(self).wf(),
            final(self).writes_view() == recorded(old(self).writes_view(), old(self).calendar_view(), calendar_turns@),
            final(self).calendar_view() == old(self).calendar_view(),
            final(self).control_view() == old(self).control_view(),
            final(self).jobs_view() == old(self).jobs_view(),
            final(self).spec_config() == old(self).spec_config(),
            final(self).spec_quiet_policy() == old(self).spec_quiet_policy(),
    {
        let ghost start = self.timer_last_run_writes.view();
        let ghost table = self.calendar_timers.view();
        let n = calendar_turns.len();
        let mut i: usize = 0;
        while i < n
            invariant
                n == calendar_turns@.len(),
                0 <= i <= n,
                self.wf(),
                self.calendar_timers.view() == table,
                table == old(self).calendar_view(),
                start == old(self).writes_view(),
                self.timer_last_run_writes.view() == recorded(start, table, calendar_turns@.take(i as int)),
                self.control_connections == old(self).control_connections,
                self.jobs_channel == old(self).jobs_channel,
                self.config == old(self).config,
                self.quiet_policy == old(self).quiet_policy,
            decreases n - i,
        {
            let fd = calendar_turns[i].0;
            proof {
                assert(calendar_turns@.take(i + 1).drop_last() =~= calendar_turns@.take(i as int));
                assert(calendar_turns@.take(i + 1).last() == calendar_turns@[i as int]);
            }
            match &calendar_turns[i].1.last_run_write {
                Some(Ok(TimerLastRunWriteOutcome::Queued { pid })) => {
                    match self.calendar_timers.identity_for(fd) {
                        Some((service, schedule)) => {
                            self.timer_last_run_writes.record(*pid, service, schedule);
                        },
                        None => {},
                    }
                },
                _ => {},
            }
            i += 1;
        }
        proof {
            assert(calendar_turns@.take(n as int) =~= calendar_turns@);
        }
    }

    /// Match this turn's untracked child reaps against the outstanding
    /// writes, in the order they were reaped, and report the writes whose
    /// child failed.
    pub fn claim_timer_last_run_write_exits(&mut self, turns: &Vec<RuntimeShutdownEventTurn>) -> (failed: Vec<FailedTimerLastRunWrite>)
        requires
            old(self).wf(),
        ensures
            final(self).wf(),
            final(self).writes_view() == claims(old(self).writes_view(), untracked_reaps(turns@)).0,
            failed@ == claims(old(self).writes_view(), untracked_reaps(turns@)).1,
            final(self).calendar_view() == old(self).calendar_view(),
            final(self).control_view() == old(self).control_view(),
            final(self).jobs_view() == old(self).jobs_view(),
            final(self).spec_config() == old(self).spec_config(),
            final(self).spec_quiet_policy() == old(self).spec_quiet_policy(),
    {
        let reaps = untracked_child_reaps(turns);
        let ghost start = self.timer_last_run_writes.view();
        let mut failed: Vec<FailedTimerLastRunWrite> = Vec::new();
        let n = reaps.len();
        let mut i: usize = 0;
        while i < n
            invariant
                n == reaps@.len(),
                0 <= i <= n,
                self.wf(),
                start == old(self).writes_view(),
                self.timer_last_run_writes.view() == claims(start, reaps@.take(i as int)).0,
                failed@ == claims(start, reaps@.take(i as int)).1,
                self.calendar_timers == old(self).calendar_timers,
                self.control_connections == old(self).control_connections,
                self.jobs_channel == old(self).jobs_channel,
                self.config == old(self).config,
                self.quiet_policy == old(self).quiet_policy,
            decreases n - i,
        {
            let child = reaps[i];
            proof {
                assert(reaps@.take(i + 1).drop_last() =~= reaps@.take(i as int));
                assert(reaps@.take(i + 1).last() == child);
            }
            match self.timer_last_run_writes.claim(child.pid, child.status) {
                Some(write) => failed.push(write),
                None => {},
            }
            i += 1;
        }
        proof {
            assert(reaps@.take(n as int) =~= reaps@);
        }
        failed
    }

    /// Everything the turn says on the console that the policy lets
    /// through, in order: what the turn's events say, the last-run writes
    /// that failed, and a Critical reboot's announcement. Records the writes
    /// the turn forked and claims the exits it reaped on the way. Audit
    /// events the ring refused are counted and replaced in the ring itself,
    /// not said here.
    pub fn turn_console_messages(
        &mut self,
        pre_work: &RuntimeWorkPumpTurn,
        turns: &Vec<RuntimeShutdownEventTurn>,
        post_work: &RuntimeWorkPumpTurn,
        calendar_turns: &Vec<(i32, RuntimeCalendarTimerTurn)>,
        critical_budget_reboot: &Option<SupervisorCriticalBudgetRebootDispatch>,
    ) -> (r: Vec<ConsoleMessage>)
        requires
            old(self).wf(),
        ensures
            final(self).wf(),
            ({
                let after_recording = recorded(old(self).writes_view(), old(self).calendar_view(), calendar_turns@);
                let claimed = claims(after_recording, untracked_reaps(turns@));
                &&& final(self).writes_view() == claimed.0
                &&& messages_view(r@) == allowed_messages(
                    old(self).spec_quiet_policy(),
                    runtime_loop_msgs(*pre_work, turns@, *post_work, calendar_turns@)
                        + last_run_failure_msgs(claimed.1) + critical_reboot_msgs(*critical_budget_reboot),
                )
            }),
            final(self).calendar_view() == old(self).calendar_view(),
            final(self).control_view() == old(self).control_view(),
            final(self).jobs_view() == old(self).jobs_view(),
            final(self).spec_config() == old(self).spec_config(),
            final(self).spec_quiet_policy() == old(self).spec_quiet_policy(),
    {
        self.record_queued_timer_last_run_writes(calendar_turns);
        let failed = self.claim_timer_last_run_write_exits(turns);
        let mut messages: Vec<ConsoleMessage> = Vec::new();
        collect_runtime_loop_console_messages(pre_work, turns, post_work, calendar_turns, &mut messages);
        push_timer_last_run_write_failures(&mut messages, &failed);
        match critical_budget_reboot {
            Some(d) => push_critical_budget_reboot_messages(&mut messages, d),
            None => {},
        }
        proof {
            assert(messages_view(messages@) =~= Seq::<ConsoleMessageView>::empty() + runtime_loop_msgs(*pre_work, turns@, *post_work, calendar_turns@)
                + last_run_failure_msgs(failed@) + critical_reboot_msgs(*critical_budget_reboot));
        }
        messages_allowed_by(self.quiet_policy, &messages)
    }
}

/// A copy of a security descriptor.
fn clone_security(d: &ControlSecurityDescriptor) -> (c: ControlSecurityDescriptor)
    ensures
        c == *d,
{
    match d {
        ControlSecurityDescriptor::Default => ControlSecurityDescriptor::Default,
        ControlSecurityDescriptor::Custom(s) => ControlSecurityDescriptor::Custom(s.clone()),
    }
}

/// The loop's wait never sleeps through an idle connection: at every moment
/// before the deadline it wakes for, no control or jobs connection is idle.
pub proof fn law_wait_wakes_for_every_idle_connection(rt: LinuxShutdownRuntime, operation_maintenance_deadline_ns: Option<u64>, t: u64)
    requires
        match rt.spec_wake_deadline(operation_maintenance_deadline_ns) {
            Some(d) => t < d,
            None => true,
        },
    ensures
        idle_fds_of(rt.control_view(), t, rt.spec_config().control_limits.connection_timeout_secs) == Seq::<i32>::empty(),
        idle_fds_of(rt.jobs_view(), t, rt.spec_jobs_connection_timeout_secs()) == Seq::<i32>::empty(),
{
    crate::connections::law_nothing_idle_before_the_deadline(
        rt.control_view(),
        t,
        rt.spec_config().control_limits.connection_timeout_secs,
    );
    crate::connections::law_nothing_idle_before_the_deadline(rt.jobs_view(), t, rt.spec_jobs_connection_timeout_secs());
}

/// A timer's last-run write forked in a turn whose child the same turn
/// reaps with a failed exit is reported, named by the timer that forked it,
/// and is no longer outstanding. Holds when the fd is an armed timer and no
/// earlier write is outstanding for the pid.
pub proof fn law_turn_reports_its_failed_write(
    s: Seq<OutstandingWrite>,
    table: Seq<LinuxCalendarTimerEntry>,
    fd: i32,
    turn: RuntimeCalendarTimerTurn,
    reap: ChildReap,
)
    requires
        s.len() <= crate::linux::timer_last_run::MAX_OUTSTANDING,
        crate::linux::timer_last_run::position_of(s, reap.pid) is None,
        identity_of(table, fd) is Some,
        turn.last_run_write == Some(Ok::<TimerLastRunWriteOutcome, String>(TimerLastRunWriteOutcome::Queued { pid: reap.pid })),
        crate::linux::timer_last_run::write_failed(reap.status),
    ensures
        ({
            let after = claims(recorded(s, table, seq![(fd, turn)]), seq![reap]);
            &&& after.1 == seq![FailedTimerLastRunWrite {
                service: identity_of(table, fd)->Some_0.0,
                schedule: identity_of(table, fd)->Some_0.1,
            }]
            &&& crate::linux::timer_last_run::position_of(after.0, reap.pid) is None
        }),
{
    let id = identity_of(table, fd)->Some_0;
    let w = OutstandingWrite { pid: reap.pid, service: id.0, schedule: id.1 };
    assert(seq![(fd, turn)].drop_last() =~= Seq::<(i32, RuntimeCalendarTimerTurn)>::empty());
    assert(queued_write(table, (fd, turn)) == Some(w));
    assert(recorded(s, table, Seq::<(i32, RuntimeCalendarTimerTurn)>::empty()) == s);
    assert(seq![(fd, turn)].last() == (fd, turn));
    assert(recorded(s, table, seq![(fd, turn)]) == after_record(s, w));
    assert(seq![reap].drop_last() =~= Seq::<ChildReap>::empty());
    let r = after_record(s, w);
    assert(claims(r, Seq::<ChildReap>::empty()) == (r, Seq::<FailedTimerLastRunWrite>::empty()));
    assert(seq![reap].last() == reap);
    crate::linux::timer_last_run::law_failed_write_is_reported(s, w, reap.status);
    assert(claims(after_record(s, w), seq![reap]).1 =~= seq![FailedTimerLastRunWrite { service: w.service, schedule: w.schedule }]);
}

/// Whatever the policy, every Critical message of a turn is written, and
/// nothing the policy forbids is; what is written keeps the turn's order,
/// and nothing is written that the turn did not say.
pub proof fn law_critical_messages_are_always_written(p: QuietPolicy, msgs: Seq<ConsoleMessageView>)
    ensures
        forall|i: int| 0 <= i < msgs.len() && (#[trigger] msgs[i]).severity is Critical
            ==> allowed_messages(p, msgs).contains(msgs[i]),
        forall|j: int| 0 <= j < allowed_messages(p, msgs).len()
            ==> policy_allows(p.level, p.console_is_owned, (#[trigger] allowed_messages(p, msgs)[j]).severity),
        forall|m: ConsoleMessageView| #[trigger] allowed_messages(p, msgs).contains(m) ==> msgs.contains(m),
        allowed_messages(p, msgs).len() <= msgs.len(),
{
    let f = |m: ConsoleMessageView| policy_allows(p.level, p.console_is_owned, m.severity);
    msgs.filter_lemma(f);
    msgs.lemma_filter_len(f);
    assert forall|i: int| 0 <= i < msgs.len() && (#[trigger] msgs[i]).severity is Critical
        implies allowed_messages(p, msgs).contains(msgs[i]) by {
        crate::console::policy::law_critical_always_passes(p.level, p.console_is_owned);
        msgs.lemma_filter_contains(f, i);
    }
    assert forall|m: ConsoleMessageView| #[trigger] allowed_messages(p, msgs).contains(m) implies msgs.contains(m) by {
        msgs.lemma_filter_contains_rev(f, m);
    }
}

/// A turn that reaps, with a failing status, the child of a last-run write
/// recorded in an earlier turn, while fewer writes than the ring holds were
/// recorded since, says that write's warning and claims it: a later reap of
/// the same pid reports nothing more. Holds for pids no other write shares.
pub proof fn law_failed_last_run_write_is_said_once(
    s: Seq<OutstandingWrite>,
    w: OutstandingWrite,
    later: Seq<OutstandingWrite>,
    reap: ChildReap,
    again: ChildReap,
)
    requires
        s.len() <= MAX_OUTSTANDING,
        forall|j: int| 0 <= j < s.len() ==> (#[trigger] s[j]).pid != w.pid,
        later.len() < MAX_OUTSTANDING,
        forall|j: int| 0 <= j < later.len() ==> (#[trigger] later[j]).pid != w.pid,
        reap.pid == w.pid,
        write_failed(reap.status),
        again.pid == w.pid,
    ensures
        ({
            let ring = after_records(after_record(s, w), later);
            let first = claims(ring, seq![reap]);
            let f = FailedTimerLastRunWrite { service: w.service, schedule: w.schedule };
            &&& first.1 == seq![f]
            &&& last_run_failure_msgs(first.1) == msg_error(last_run_warning_text(f))
            &&& claims(first.0, seq![again]).1 == Seq::<FailedTimerLastRunWrite>::empty()
            &&& claims(first.0, seq![again]).0 == first.0
        }),
{
    crate::linux::timer_last_run::law_write_outlives_later_records(s, w, later, reap.status);
    let ring = after_records(after_record(s, w), later);
    let f = FailedTimerLastRunWrite { service: w.service, schedule: w.schedule };
    assert(seq![reap].drop_last() =~= Seq::<ChildReap>::empty());
    assert(seq![again].drop_last() =~= Seq::<ChildReap>::empty());
    assert(claims(ring, Seq::<ChildReap>::empty()) == (ring, Seq::<FailedTimerLastRunWrite>::empty()));
    assert(seq![reap].last() == reap);
    let first = claims(ring, seq![reap]);
    assert(first.0 == after_claim(ring, w.pid));
    assert(first.1 =~= seq![f]);
    assert(claims(first.0, Seq::<ChildReap>::empty()) == (first.0, Seq::<FailedTimerLastRunWrite>::empty()));
    assert(seq![again].last() == again);
    assert(claim_result(first.0, w.pid, again.status) is None);
    assert(after_claim(first.0, w.pid) == first.0);
    let g = |x: FailedTimerLastRunWrite| msg_error(last_run_warning_text(x));
    assert(seq![f].drop_last() =~= Seq::<FailedTimerLastRunWrite>::empty());
    assert(flat_map(seq![f], g) =~= flat_map(Seq::<FailedTimerLastRunWrite>::empty(), g) + g(f));
}

} // verus!
