//! What the console says about jobs that ended and deadlines that passed.
use vstd::prelude::*;
use vstd::string::*;
use crate::seqs::{flat_map, lemma_flat_map_step, lemma_flat_map_all};
use crate::text::append_string;
use crate::console::message::{ConsoleMessage, ConsoleMessageView, messages_view, msg_status, msg_error, push_message, push_error};
use crate::console::service::{transitions_msgs, transition_msgs, starts_msgs, restart_starts_msgs, internal_error_msgs, critical_failure_msgs, collect_service_transitions_console_messages, collect_service_transition_console_message, collect_start_dispatches_console_messages, collect_restart_start_dispatches_console_messages, push_critical_service_failure, push_internal_error_messages};
use crate::console::shutdown::{shutdown_terminal_msgs, collect_shutdown_terminal_dispatch_console_messages};
use crate::model::service::{LeakedCgroupKind};
use crate::model::dispatch::{HookTerminalDispatch, ServiceMainJobTerminalDispatch, ReloadCommandDispatch, ReloadDetectionCompletion, ReloadDetectionPhase, SupervisorLeakedCgroupDispatch};
use crate::model::supervisor::{SupervisorHealthCheckTerminalDispatch, SupervisorTerminalDispatch, SupervisorPreStartHookTerminalDispatch, SupervisorPostStartHookTerminalDispatch};
use crate::model::deadline::{SupervisorLifecycleDeadlineDispatch, SupervisorPreStartCheckTimeoutDispatch, SupervisorHookTimeoutDispatch, SupervisorReadinessTimeoutDispatch, SupervisorWatchdogTimeoutDispatch, SupervisorBootSettleDispatch, SupervisorBootSettleStart, SupervisorBootSettleFailure};
use crate::model::turn::{SupervisorChildReapTurn, SupervisorChildReapDispatch};

verus! {

pub fn collect_post_start_hook_terminal_console_messages(d: &HookTerminalDispatch, out: &mut Vec<ConsoleMessage>)
    ensures
        messages_view(final(out)@) == messages_view(old(out)@) + transitions_msgs(d.service_transitions@),
{
    collect_service_transitions_console_messages(&d.service_transitions, out);
}

/// A health check's transitions, and the Critical failure it raised.
pub open spec fn health_check_terminal_msgs(d: SupervisorHealthCheckTerminalDispatch) -> Seq<ConsoleMessageView> {
    transitions_msgs(d.service_transitions@) + (if d.critical_reboot is Some && d.job_event.service is Some {
        critical_failure_msgs(d.job_event.service.unwrap()@, "health check failed"@)
    } else {
        Seq::empty()
    })
}

pub fn collect_health_check_terminal_console_messages(d: &SupervisorHealthCheckTerminalDispatch, out: &mut Vec<ConsoleMessage>)
    ensures
        messages_view(final(out)@) == messages_view(old(out)@) + health_check_terminal_msgs(*d),
{
    let ghost start = messages_view(out@);
    collect_service_transitions_console_messages(&d.service_transitions, out);
    if d.critical_reboot.is_some() {
        match &d.job_event.service {
            Some(service) => push_critical_service_failure(out, service.as_str(), "health check failed"),
            None => {},
        }
    }
    assert(messages_view(out@) == start + health_check_terminal_msgs(*d));
}

/// A main process that exited after its service stopped expecting one. No
/// transition follows such an exit, so without this it leaves no trace.
pub open spec fn late_exit_msgs(d: ServiceMainJobTerminalDispatch) -> Seq<ConsoleMessageView> {
    match (d.late_exit, d.job_event.service) {
        (Some(state), Some(service)) => msg_error(
            "peinit: service "@ + service@ + " main process exited in state "@ + state.spec_name() + "; no action taken\n"@,
        ),
        _ => Seq::empty(),
    }
}

fn push_late_service_exit(d: &ServiceMainJobTerminalDispatch, out: &mut Vec<ConsoleMessage>)
    ensures
        messages_view(final(out)@) == messages_view(old(out)@) + late_exit_msgs(*d),
{
    match (&d.late_exit, &d.job_event.service) {
        (Some(state), Some(service)) => {
            let mut s = String::from_str("peinit: service ");
            append_string(&mut s, service);
            s.append(" main process exited in state ");
            s.append(state.name());
            s.append("; no action taken\n");
            push_error(out, s);
        },
        _ => {
            assert(messages_view(out@) == messages_view(old(out)@) + Seq::<ConsoleMessageView>::empty());
        },
    }
}

pub open spec fn terminal_dispatch_msgs(d: SupervisorTerminalDispatch) -> Seq<ConsoleMessageView> {
    late_exit_msgs(d.terminal) + transitions_msgs(d.terminal.service_transitions@) + starts_msgs(d.start_dispatches@)
        + restart_starts_msgs(d.restart_start_dispatches@) + (if d.critical_reboot is Some && d.terminal.job_event.service is Some {
        critical_failure_msgs(d.terminal.job_event.service.unwrap()@, "service main exited"@)
    } else {
        Seq::empty()
    })
}

fn collect_terminal_dispatch_console_messages(d: &SupervisorTerminalDispatch, out: &mut Vec<ConsoleMessage>)
    ensures
        messages_view(final(out)@) == messages_view(old(out)@) + terminal_dispatch_msgs(*d),
{
    let ghost start = messages_view(out@);
    push_late_service_exit(&d.terminal, out);
    collect_service_transitions_console_messages(&d.terminal.service_transitions, out);
    collect_start_dispatches_console_messages(&d.start_dispatches, out);
    collect_restart_start_dispatches_console_messages(&d.restart_start_dispatches, out);
    if d.critical_reboot.is_some() {
        match &d.terminal.job_event.service {
            Some(service) => push_critical_service_failure(out, service.as_str(), "service main exited"),
            None => {},
        }
    }
    assert(messages_view(out@) == start + terminal_dispatch_msgs(*d));
}

pub open spec fn pre_start_hook_terminal_msgs(d: SupervisorPreStartHookTerminalDispatch) -> Seq<ConsoleMessageView> {
    transitions_msgs(d.terminal.service_transitions@) + starts_msgs(d.start_dispatches@)
}

fn collect_pre_start_hook_terminal_console_messages(d: &SupervisorPreStartHookTerminalDispatch, out: &mut Vec<ConsoleMessage>)
    ensures
        messages_view(final(out)@) == messages_view(old(out)@) + pre_start_hook_terminal_msgs(*d),
{
    let ghost start = messages_view(out@);
    collect_service_transitions_console_messages(&d.terminal.service_transitions, out);
    collect_start_dispatches_console_messages(&d.start_dispatches, out);
    assert(messages_view(out@) == start + pre_start_hook_terminal_msgs(*d));
}

pub open spec fn post_start_hook_terminal_msgs(d: SupervisorPostStartHookTerminalDispatch) -> Seq<ConsoleMessageView> {
    transitions_msgs(d.terminal.service_transitions@) + starts_msgs(d.start_dispatches@)
}

pub fn collect_post_start_hook_terminal_dispatch_console_messages(d: &SupervisorPostStartHookTerminalDispatch, out: &mut Vec<ConsoleMessage>)
    ensures
        messages_view(final(out)@) == messages_view(old(out)@) + post_start_hook_terminal_msgs(*d),
{
    let ghost start = messages_view(out@);
    collect_post_start_hook_terminal_console_messages(&d.terminal, out);
    collect_start_dispatches_console_messages(&d.start_dispatches, out);
    assert(messages_view(out@) == start + post_start_hook_terminal_msgs(*d));
}

/// What one reaped child says, by what it was.
pub open spec fn child_reap_msgs(t: SupervisorChildReapTurn) -> Seq<ConsoleMessageView> {
    match t {
        SupervisorChildReapTurn::Supervised { dispatch, .. } => match dispatch {
            SupervisorChildReapDispatch::Runtime(d) => terminal_dispatch_msgs(*d),
            SupervisorChildReapDispatch::PreStartHook(d) => pre_start_hook_terminal_msgs(*d),
            SupervisorChildReapDispatch::PostStartHook(d) => post_start_hook_terminal_msgs(*d),
            SupervisorChildReapDispatch::HealthCheck(d) => health_check_terminal_msgs(*d),
            SupervisorChildReapDispatch::Shutdown(d) => shutdown_terminal_msgs(*d),
            SupervisorChildReapDispatch::ReloadCommand(_) | SupervisorChildReapDispatch::Submitted(_) => Seq::empty(),
        },
        SupervisorChildReapTurn::Untracked { .. } => Seq::empty(),
        SupervisorChildReapTurn::InternalError { dispatch, .. } => internal_error_msgs(*dispatch),
    }
}

pub fn collect_child_reap_turn_console_messages(t: &SupervisorChildReapTurn, out: &mut Vec<ConsoleMessage>)
    ensures
        messages_view(final(out)@) == messages_view(old(out)@) + child_reap_msgs(*t),
{
    match t {
        SupervisorChildReapTurn::Supervised { dispatch, .. } => match dispatch {
            SupervisorChildReapDispatch::Runtime(d) => collect_terminal_dispatch_console_messages(d, out),
            SupervisorChildReapDispatch::PreStartHook(d) => collect_pre_start_hook_terminal_console_messages(d, out),
            SupervisorChildReapDispatch::PostStartHook(d) => collect_post_start_hook_terminal_dispatch_console_messages(d, out),
            SupervisorChildReapDispatch::HealthCheck(d) => collect_health_check_terminal_console_messages(d, out),
            SupervisorChildReapDispatch::Shutdown(d) => collect_shutdown_terminal_dispatch_console_messages(d, out),
            SupervisorChildReapDispatch::ReloadCommand(_) | SupervisorChildReapDispatch::Submitted(_) => {
                assert(messages_view(out@) == messages_view(old(out)@) + Seq::<ConsoleMessageView>::empty());
            },
        },
        SupervisorChildReapTurn::Untracked { .. } => {
            assert(messages_view(out@) == messages_view(old(out)@) + Seq::<ConsoleMessageView>::empty());
        },
        SupervisorChildReapTurn::InternalError { dispatch, .. } => push_internal_error_messages(out, dispatch),
    }
}

pub open spec fn child_reaps_msgs(s: Seq<SupervisorChildReapTurn>) -> Seq<ConsoleMessageView> {
    flat_map(s, |d: SupervisorChildReapTurn| child_reap_msgs(d))
}

pub fn collect_child_reap_turns_console_messages(ds: &Vec<SupervisorChildReapTurn>, out: &mut Vec<ConsoleMessage>)
    ensures
        messages_view(final(out)@) == messages_view(old(out)@) + child_reaps_msgs(ds@),
{
    let ghost start = messages_view(out@);
    let n = ds.len();
    let mut i: usize = 0;
    while i < n
        invariant
            n == ds@.len(),
            0 <= i <= n,
            messages_view(out@) == start + child_reaps_msgs(ds@.take(i as int)),
        decreases n - i,
    {
        let d = &ds[i];
        collect_child_reap_turn_console_messages(d, out);
        proof {
            lemma_flat_map_step(ds@, |d: SupervisorChildReapTurn| child_reap_msgs(d), i as int);
        }
        i += 1;
    }
    proof {
        lemma_flat_map_all(ds@, |d: SupervisorChildReapTurn| child_reap_msgs(d));
    }
}


pub open spec fn watchdog_timeout_msgs(d: SupervisorWatchdogTimeoutDispatch) -> Seq<ConsoleMessageView> {
    transitions_msgs(d.service_transitions@) + (if d.critical_reboot is Some {
        critical_failure_msgs(d.service@, "watchdog timeout"@)
    } else {
        Seq::empty()
    })
}

fn collect_watchdog_timeout_console_messages(d: &SupervisorWatchdogTimeoutDispatch, out: &mut Vec<ConsoleMessage>)
    ensures
        messages_view(final(out)@) == messages_view(old(out)@) + watchdog_timeout_msgs(*d),
{
    let ghost start = messages_view(out@);
    collect_service_transitions_console_messages(&d.service_transitions, out);
    if d.critical_reboot.is_some() {
        push_critical_service_failure(out, d.service.as_str(), "watchdog timeout");
    }
    assert(messages_view(out@) == start + watchdog_timeout_msgs(*d));
}

/// A service that announced `RELOADING=1` and never finished has wedged or
/// lost its handler, and says so; a detection window that merely expired is
/// the ordinary outcome and says nothing.
pub open spec fn reload_detection_msgs(d: ReloadDetectionCompletion) -> Seq<ConsoleMessageView> {
    match d.phase {
        ReloadDetectionPhase::ExtendedWait => msg_error(
            "peinit: service "@ + d.operation_event.service@ + " signalled RELOADING=1 but never completed reload\n"@,
        ),
        ReloadDetectionPhase::DetectionWindow => Seq::empty(),
    }
}

fn collect_reload_detection_console_messages(d: &ReloadDetectionCompletion, out: &mut Vec<ConsoleMessage>)
    ensures
        messages_view(final(out)@) == messages_view(old(out)@) + reload_detection_msgs(*d),
{
    match d.phase {
        ReloadDetectionPhase::ExtendedWait => {
            let mut s = String::from_str("peinit: service ");
            append_string(&mut s, &d.operation_event.service);
            s.append(" signalled RELOADING=1 but never completed reload\n");
            push_error(out, s);
        },
        ReloadDetectionPhase::DetectionWindow => {
            assert(messages_view(out@) == messages_view(old(out)@) + Seq::<ConsoleMessageView>::empty());
        },
    }
}

pub open spec fn leaked_cgroup_kind_text(kind: LeakedCgroupKind) -> Seq<char> {
    match kind {
        LeakedCgroupKind::ServiceTree => "service_tree"@,
        LeakedCgroupKind::Health => "health"@,
        LeakedCgroupKind::Hooks => "hooks"@,
        LeakedCgroupKind::Helper => "helper"@,
    }
}

fn leaked_cgroup_kind_console(kind: LeakedCgroupKind) -> (r: &'static str)
    ensures
        r@ == leaked_cgroup_kind_text(kind),
{
    match kind {
        LeakedCgroupKind::ServiceTree => "service_tree",
        LeakedCgroupKind::Health => "health",
        LeakedCgroupKind::Hooks => "hooks",
        LeakedCgroupKind::Helper => "helper",
    }
}

/// A leak means something under the service stopped answering the kernel;
/// the service carries on, so nothing else would say so.
pub open spec fn cgroup_leak_msgs(d: SupervisorLeakedCgroupDispatch) -> Seq<ConsoleMessageView> {
    msg_error(
        "peinit: service "@ + d.service@ + " leaked its "@ + leaked_cgroup_kind_text(d.kind) + " cgroup "@ + d.path@
            + "; underlying process is not responding to the kernel\n"@,
    )
}

fn push_cgroup_leak(d: &SupervisorLeakedCgroupDispatch, out: &mut Vec<ConsoleMessage>)
    ensures
        messages_view(final(out)@) == messages_view(old(out)@) + cgroup_leak_msgs(*d),
{
    let mut s = String::from_str("peinit: service ");
    append_string(&mut s, &d.service);
    s.append(" leaked its ");
    s.append(leaked_cgroup_kind_console(d.kind));
    s.append(" cgroup ");
    append_string(&mut s, &d.path);
    s.append("; underlying process is not responding to the kernel\n");
    push_error(out, s);
}

pub open spec fn boot_settle_failure_msgs(f: SupervisorBootSettleFailure) -> Seq<ConsoleMessageView> {
    msg_error("peinit: deferred service "@ + f.service@ + " could not be started: "@ + f.error@ + "\n"@)
}

fn push_boot_settle_failure(f: &SupervisorBootSettleFailure, out: &mut Vec<ConsoleMessage>)
    ensures
        messages_view(final(out)@) == messages_view(old(out)@) + boot_settle_failure_msgs(*f),
{
    let mut s = String::from_str("peinit: deferred service ");
    append_string(&mut s, &f.service);
    s.append(" could not be started: ");
    append_string(&mut s, &f.error);
    s.append("\n");
    push_error(out, s);
}

pub open spec fn boot_settle_starts_msgs(s: Seq<SupervisorBootSettleStart>) -> Seq<ConsoleMessageView> {
    flat_map(s, |d: SupervisorBootSettleStart| starts_msgs(d.start_dispatches@))
}

fn collect_boot_settle_starts(ds: &Vec<SupervisorBootSettleStart>, out: &mut Vec<ConsoleMessage>)
    ensures
        messages_view(final(out)@) == messages_view(old(out)@) + boot_settle_starts_msgs(ds@),
{
    let ghost start = messages_view(out@);
    let n = ds.len();
    let mut i: usize = 0;
    while i < n
        invariant
            n == ds@.len(),
            0 <= i <= n,
            messages_view(out@) == start + boot_settle_starts_msgs(ds@.take(i as int)),
        decreases n - i,
    {
        let d = &ds[i];
        collect_start_dispatches_console_messages(&d.start_dispatches, out);
        proof {
            lemma_flat_map_step(ds@, |d: SupervisorBootSettleStart| starts_msgs(d.start_dispatches@), i as int);
        }
        i += 1;
    }
    proof {
        lemma_flat_map_all(ds@, |d: SupervisorBootSettleStart| starts_msgs(d.start_dispatches@));
    }
}


pub open spec fn boot_settle_failures_msgs(s: Seq<SupervisorBootSettleFailure>) -> Seq<ConsoleMessageView> {
    flat_map(s, |d: SupervisorBootSettleFailure| boot_settle_failure_msgs(d))
}

fn collect_boot_settle_failures(ds: &Vec<SupervisorBootSettleFailure>, out: &mut Vec<ConsoleMessage>)
    ensures
        messages_view(final(out)@) == messages_view(old(out)@) + boot_settle_failures_msgs(ds@),
{
    let ghost start = messages_view(out@);
    let n = ds.len();
    let mut i: usize = 0;
    while i < n
        invariant
            n == ds@.len(),
            0 <= i <= n,
            messages_view(out@) == start + boot_settle_failures_msgs(ds@.take(i as int)),
        decreases n - i,
    {
        let d = &ds[i];
        push_boot_settle_failure(d, out);
        proof {
            lemma_flat_map_step(ds@, |d: SupervisorBootSettleFailure| boot_settle_failure_msgs(d), i as int);
        }
        i += 1;
    }
    proof {
        lemma_flat_map_all(ds@, |d: SupervisorBootSettleFailure| boot_settle_failure_msgs(d));
    }
}


/// A boot settle says when the wait was cut short and something was started
/// anyway: a prompt started on a timeout may still be written over.
pub open spec fn boot_settle_msgs(d: SupervisorBootSettleDispatch) -> Seq<ConsoleMessageView> {
    (if d.timed_out && d.started@.len() > 0 {
        msg_status("peinit: boot did not settle in time; starting deferred service(s) anyway\n"@)
    } else {
        Seq::empty()
    }) + boot_settle_starts_msgs(d.started@) + boot_settle_failures_msgs(d.failed@)
}

fn collect_boot_settle_console_messages(d: &SupervisorBootSettleDispatch, out: &mut Vec<ConsoleMessage>)
    ensures
        messages_view(final(out)@) == messages_view(old(out)@) + boot_settle_msgs(*d),
{
    let ghost start = messages_view(out@);
    if d.timed_out && d.started.len() > 0 {
        push_message(out, String::from_str("peinit: boot did not settle in time; starting deferred service(s) anyway\n"));
    }
    collect_boot_settle_starts(&d.started, out);
    collect_boot_settle_failures(&d.failed, out);
    assert(messages_view(out@) == start + boot_settle_msgs(*d));
}

pub open spec fn pre_start_check_timeouts_msgs(s: Seq<SupervisorPreStartCheckTimeoutDispatch>) -> Seq<ConsoleMessageView> {
    flat_map(s, |d: SupervisorPreStartCheckTimeoutDispatch| transitions_msgs(d.completion.service_transitions@) + starts_msgs(d.start_dispatches@))
}

fn collect_pre_start_check_timeouts(ds: &Vec<SupervisorPreStartCheckTimeoutDispatch>, out: &mut Vec<ConsoleMessage>)
    ensures
        messages_view(final(out)@) == messages_view(old(out)@) + pre_start_check_timeouts_msgs(ds@),
{
    let ghost start = messages_view(out@);
    let n = ds.len();
    let mut i: usize = 0;
    while i < n
        invariant
            n == ds@.len(),
            0 <= i <= n,
            messages_view(out@) == start + pre_start_check_timeouts_msgs(ds@.take(i as int)),
        decreases n - i,
    {
        let d = &ds[i];
        collect_service_transitions_console_messages(&d.completion.service_transitions, out); collect_start_dispatches_console_messages(&d.start_dispatches, out);
        proof {
            lemma_flat_map_step(ds@, |d: SupervisorPreStartCheckTimeoutDispatch| transitions_msgs(d.completion.service_transitions@) + starts_msgs(d.start_dispatches@), i as int);
        }
        i += 1;
    }
    proof {
        lemma_flat_map_all(ds@, |d: SupervisorPreStartCheckTimeoutDispatch| transitions_msgs(d.completion.service_transitions@) + starts_msgs(d.start_dispatches@));
    }
}


pub open spec fn hook_timeouts_msgs(s: Seq<SupervisorHookTimeoutDispatch>) -> Seq<ConsoleMessageView> {
    flat_map(s, |d: SupervisorHookTimeoutDispatch| transitions_msgs(d.timeout.service_transitions@) + starts_msgs(d.start_dispatches@))
}

fn collect_hook_timeouts(ds: &Vec<SupervisorHookTimeoutDispatch>, out: &mut Vec<ConsoleMessage>)
    ensures
        messages_view(final(out)@) == messages_view(old(out)@) + hook_timeouts_msgs(ds@),
{
    let ghost start = messages_view(out@);
    let n = ds.len();
    let mut i: usize = 0;
    while i < n
        invariant
            n == ds@.len(),
            0 <= i <= n,
            messages_view(out@) == start + hook_timeouts_msgs(ds@.take(i as int)),
        decreases n - i,
    {
        let d = &ds[i];
        collect_service_transitions_console_messages(&d.timeout.service_transitions, out); collect_start_dispatches_console_messages(&d.start_dispatches, out);
        proof {
            lemma_flat_map_step(ds@, |d: SupervisorHookTimeoutDispatch| transitions_msgs(d.timeout.service_transitions@) + starts_msgs(d.start_dispatches@), i as int);
        }
        i += 1;
    }
    proof {
        lemma_flat_map_all(ds@, |d: SupervisorHookTimeoutDispatch| transitions_msgs(d.timeout.service_transitions@) + starts_msgs(d.start_dispatches@));
    }
}


pub open spec fn readiness_timeouts_msgs(s: Seq<SupervisorReadinessTimeoutDispatch>) -> Seq<ConsoleMessageView> {
    flat_map(s, |d: SupervisorReadinessTimeoutDispatch| transitions_msgs(d.timeout.service_transitions@) + starts_msgs(d.start_dispatches@))
}

fn collect_readiness_timeouts(ds: &Vec<SupervisorReadinessTimeoutDispatch>, out: &mut Vec<ConsoleMessage>)
    ensures
        messages_view(final(out)@) == messages_view(old(out)@) + readiness_timeouts_msgs(ds@),
{
    let ghost start = messages_view(out@);
    let n = ds.len();
    let mut i: usize = 0;
    while i < n
        invariant
            n == ds@.len(),
            0 <= i <= n,
            messages_view(out@) == start + readiness_timeouts_msgs(ds@.take(i as int)),
        decreases n - i,
    {
        let d = &ds[i];
        collect_service_transitions_console_messages(&d.timeout.service_transitions, out); collect_start_dispatches_console_messages(&d.start_dispatches, out);
        proof {
            lemma_flat_map_step(ds@, |d: SupervisorReadinessTimeoutDispatch| transitions_msgs(d.timeout.service_transitions@) + starts_msgs(d.start_dispatches@), i as int);
        }
        i += 1;
    }
    proof {
        lemma_flat_map_all(ds@, |d: SupervisorReadinessTimeoutDispatch| transitions_msgs(d.timeout.service_transitions@) + starts_msgs(d.start_dispatches@));
    }
}


pub open spec fn reload_detections_msgs(s: Seq<ReloadDetectionCompletion>) -> Seq<ConsoleMessageView> {
    flat_map(s, |d: ReloadDetectionCompletion| reload_detection_msgs(d))
}

fn collect_reload_detections(ds: &Vec<ReloadDetectionCompletion>, out: &mut Vec<ConsoleMessage>)
    ensures
        messages_view(final(out)@) == messages_view(old(out)@) + reload_detections_msgs(ds@),
{
    let ghost start = messages_view(out@);
    let n = ds.len();
    let mut i: usize = 0;
    while i < n
        invariant
            n == ds@.len(),
            0 <= i <= n,
            messages_view(out@) == start + reload_detections_msgs(ds@.take(i as int)),
        decreases n - i,
    {
        let d = &ds[i];
        collect_reload_detection_console_messages(d, out);
        proof {
            lemma_flat_map_step(ds@, |d: ReloadDetectionCompletion| reload_detection_msgs(d), i as int);
        }
        i += 1;
    }
    proof {
        lemma_flat_map_all(ds@, |d: ReloadDetectionCompletion| reload_detection_msgs(d));
    }
}


pub open spec fn reload_command_timeouts_msgs(s: Seq<ReloadCommandDispatch>) -> Seq<ConsoleMessageView> {
    flat_map(s, |d: ReloadCommandDispatch| transition_msgs(d.service_transition))
}

fn collect_reload_command_timeouts(ds: &Vec<ReloadCommandDispatch>, out: &mut Vec<ConsoleMessage>)
    ensures
        messages_view(final(out)@) == messages_view(old(out)@) + reload_command_timeouts_msgs(ds@),
{
    let ghost start = messages_view(out@);
    let n = ds.len();
    let mut i: usize = 0;
    while i < n
        invariant
            n == ds@.len(),
            0 <= i <= n,
            messages_view(out@) == start + reload_command_timeouts_msgs(ds@.take(i as int)),
        decreases n - i,
    {
        let d = &ds[i];
        collect_service_transition_console_message(&d.service_transition, out);
        proof {
            lemma_flat_map_step(ds@, |d: ReloadCommandDispatch| transition_msgs(d.service_transition), i as int);
        }
        i += 1;
    }
    proof {
        lemma_flat_map_all(ds@, |d: ReloadCommandDispatch| transition_msgs(d.service_transition));
    }
}


pub open spec fn health_check_timeouts_msgs(s: Seq<SupervisorHealthCheckTerminalDispatch>) -> Seq<ConsoleMessageView> {
    flat_map(s, |d: SupervisorHealthCheckTerminalDispatch| health_check_terminal_msgs(d))
}

fn collect_health_check_timeouts(ds: &Vec<SupervisorHealthCheckTerminalDispatch>, out: &mut Vec<ConsoleMessage>)
    ensures
        messages_view(final(out)@) == messages_view(old(out)@) + health_check_timeouts_msgs(ds@),
{
    let ghost start = messages_view(out@);
    let n = ds.len();
    let mut i: usize = 0;
    while i < n
        invariant
            n == ds@.len(),
            0 <= i <= n,
            messages_view(out@) == start + health_check_timeouts_msgs(ds@.take(i as int)),
        decreases n - i,
    {
        let d = &ds[i];
        collect_health_check_terminal_console_messages(d, out);
        proof {
            lemma_flat_map_step(ds@, |d: SupervisorHealthCheckTerminalDispatch| health_check_terminal_msgs(d), i as int);
        }
        i += 1;
    }
    proof {
        lemma_flat_map_all(ds@, |d: SupervisorHealthCheckTerminalDispatch| health_check_terminal_msgs(d));
    }
}


pub open spec fn watchdog_timeouts_msgs(s: Seq<SupervisorWatchdogTimeoutDispatch>) -> Seq<ConsoleMessageView> {
    flat_map(s, |d: SupervisorWatchdogTimeoutDispatch| watchdog_timeout_msgs(d))
}

fn collect_watchdog_timeouts(ds: &Vec<SupervisorWatchdogTimeoutDispatch>, out: &mut Vec<ConsoleMessage>)
    ensures
        messages_view(final(out)@) == messages_view(old(out)@) + watchdog_timeouts_msgs(ds@),
{
    let ghost start = messages_view(out@);
    let n = ds.len();
    let mut i: usize = 0;
    while i < n
        invariant
            n == ds@.len(),
            0 <= i <= n,
            messages_view(out@) == start + watchdog_timeouts_msgs(ds@.take(i as int)),
        decreases n - i,
    {
        let d = &ds[i];
        collect_watchdog_timeout_console_messages(d, out);
        proof {
            lemma_flat_map_step(ds@, |d: SupervisorWatchdogTimeoutDispatch| watchdog_timeout_msgs(d), i as int);
        }
        i += 1;
    }
    proof {
        lemma_flat_map_all(ds@, |d: SupervisorWatchdogTimeoutDispatch| watchdog_timeout_msgs(d));
    }
}


pub open spec fn cgroup_leaks_msgs(s: Seq<SupervisorLeakedCgroupDispatch>) -> Seq<ConsoleMessageView> {
    flat_map(s, |d: SupervisorLeakedCgroupDispatch| cgroup_leak_msgs(d))
}

fn collect_cgroup_leaks(ds: &Vec<SupervisorLeakedCgroupDispatch>, out: &mut Vec<ConsoleMessage>)
    ensures
        messages_view(final(out)@) == messages_view(old(out)@) + cgroup_leaks_msgs(ds@),
{
    let ghost start = messages_view(out@);
    let n = ds.len();
    let mut i: usize = 0;
    while i < n
        invariant
            n == ds@.len(),
            0 <= i <= n,
            messages_view(out@) == start + cgroup_leaks_msgs(ds@.take(i as int)),
        decreases n - i,
    {
        let d = &ds[i];
        push_cgroup_leak(d, out);
        proof {
            lemma_flat_map_step(ds@, |d: SupervisorLeakedCgroupDispatch| cgroup_leak_msgs(d), i as int);
        }
        i += 1;
    }
    proof {
        lemma_flat_map_all(ds@, |d: SupervisorLeakedCgroupDispatch| cgroup_leak_msgs(d));
    }
}


pub open spec fn boot_settles_msgs(s: Seq<SupervisorBootSettleDispatch>) -> Seq<ConsoleMessageView> {
    flat_map(s, |d: SupervisorBootSettleDispatch| boot_settle_msgs(d))
}

fn collect_boot_settles(ds: &Vec<SupervisorBootSettleDispatch>, out: &mut Vec<ConsoleMessage>)
    ensures
        messages_view(final(out)@) == messages_view(old(out)@) + boot_settles_msgs(ds@),
{
    let ghost start = messages_view(out@);
    let n = ds.len();
    let mut i: usize = 0;
    while i < n
        invariant
            n == ds@.len(),
            0 <= i <= n,
            messages_view(out@) == start + boot_settles_msgs(ds@.take(i as int)),
        decreases n - i,
    {
        let d = &ds[i];
        collect_boot_settle_console_messages(d, out);
        proof {
            lemma_flat_map_step(ds@, |d: SupervisorBootSettleDispatch| boot_settle_msgs(d), i as int);
        }
        i += 1;
    }
    proof {
        lemma_flat_map_all(ds@, |d: SupervisorBootSettleDispatch| boot_settle_msgs(d));
    }
}


/// Everything one firing of the lifecycle deadline timer says, in the order
/// the supervisor handled it. Internal errors it contained are audit records
/// only; the console says nothing of them here.
pub open spec fn lifecycle_deadline_msgs(d: SupervisorLifecycleDeadlineDispatch) -> Seq<ConsoleMessageView> {
    pre_start_check_timeouts_msgs(d.pre_start_check_timeouts@) + hook_timeouts_msgs(d.pre_start_hook_timeouts@)
        + hook_timeouts_msgs(d.post_start_hook_timeouts@) + readiness_timeouts_msgs(d.readiness_timeouts@)
        + reload_detections_msgs(d.reload_detections@) + reload_command_timeouts_msgs(d.reload_command_timeouts@)
        + health_check_timeouts_msgs(d.health_check_timeouts@) + watchdog_timeouts_msgs(d.watchdog_timeouts@)
        + cgroup_leaks_msgs(d.cgroup_leaks@) + boot_settles_msgs(d.boot_settles@)
}

pub fn collect_lifecycle_deadline_dispatch_console_messages(d: &SupervisorLifecycleDeadlineDispatch, out: &mut Vec<ConsoleMessage>)
    ensures
        messages_view(final(out)@) == messages_view(old(out)@) + lifecycle_deadline_msgs(*d),
{
    let ghost start = messages_view(out@);
    collect_pre_start_check_timeouts(&d.pre_start_check_timeouts, out);
    collect_hook_timeouts(&d.pre_start_hook_timeouts, out);
    collect_hook_timeouts(&d.post_start_hook_timeouts, out);
    collect_readiness_timeouts(&d.readiness_timeouts, out);
    collect_reload_detections(&d.reload_detections, out);
    collect_reload_command_timeouts(&d.reload_command_timeouts, out);
    collect_health_check_timeouts(&d.health_check_timeouts, out);
    collect_watchdog_timeouts(&d.watchdog_timeouts, out);
    collect_cgroup_leaks(&d.cgroup_leaks, out);
    collect_boot_settles(&d.boot_settles, out);
    assert(messages_view(out@) == start + lifecycle_deadline_msgs(*d));
}

} // verus!
