//! What the console says about the work the pump drained: control operations
//! that failed before they began, restarts that held their dependents, and
//! launches.
use vstd::prelude::*;
use vstd::string::*;
use crate::seqs::{flat_map, lemma_flat_map_step, lemma_flat_map_all, lemma_flat_map_singletons};
use crate::text::{append_string, append_decimal, decimal};
use crate::console::message::{ConsoleMessage, ConsoleMessageView, ConsoleSeverity, ConsoleTag, messages_view, msg_ok, msg_error, push_ok, push_error};
use crate::console::service::{transitions_msgs, starts_msgs, service_started_msgs, launch_failed_msgs, collect_service_transitions_console_messages, collect_start_dispatches_console_messages, push_service_started, push_service_launch_failed};
use crate::console::job::{post_start_hook_terminal_msgs, health_check_terminal_msgs, collect_post_start_hook_terminal_dispatch_console_messages, collect_health_check_terminal_console_messages};
use crate::model::supervisor::{SupervisorControlOperationFailureDispatch, SupervisorHeldRestartAbandonReason, SupervisorHeldRestartOutcome, SupervisorHeldRestartSettlement, SupervisorLaunchDispatch, SupervisorLaunchFailureDispatch, SupervisorPostStartHookTerminalDispatch, SupervisorHealthCheckLaunchFailureDispatch};
use crate::model::turn::{RuntimeWorkPumpTurn};

verus! {

pub open spec fn abandon_reason_text(r: SupervisorHeldRestartAbandonReason) -> Seq<char> {
    match r {
        SupervisorHeldRestartAbandonReason::Stopped => "was stopped in Backoff"@,
        SupervisorHeldRestartAbandonReason::Withdrawn => "was withdrawn in Backoff"@,
        SupervisorHeldRestartAbandonReason::Failed => "failed in Backoff"@,
    }
}

fn abandon_reason_str(r: SupervisorHeldRestartAbandonReason) -> (s: &'static str)
    ensures
        s@ == abandon_reason_text(r),
{
    match r {
        SupervisorHeldRestartAbandonReason::Stopped => "was stopped in Backoff",
        SupervisorHeldRestartAbandonReason::Withdrawn => "was withdrawn in Backoff",
        SupervisorHeldRestartAbandonReason::Failed => "failed in Backoff",
    }
}

/// A control operation that failed before it began. The service kept its
/// state, so no transition says anything went wrong; this line does.
pub open spec fn control_operation_failure_msgs(d: SupervisorControlOperationFailureDispatch) -> Seq<ConsoleMessageView> {
    msg_error(
        "peinit: service "@ + d.service@ + ": "@ + d.operation_type.spec_name() + " operation "@
            + decimal(d.operation_id as nat) + " failed before it began: "@ + d.error@ + "\n"@,
    )
}

fn push_control_operation_failure(d: &SupervisorControlOperationFailureDispatch, out: &mut Vec<ConsoleMessage>)
    ensures
        messages_view(final(out)@) == messages_view(old(out)@) + control_operation_failure_msgs(*d),
{
    let mut s = String::from_str("peinit: service ");
    append_string(&mut s, &d.service);
    s.append(": ");
    s.append(d.operation_type.name());
    s.append(" operation ");
    append_decimal(&mut s, d.operation_id);
    s.append(" failed before it began: ");
    append_string(&mut s, &d.error);
    s.append("\n");
    push_error(out, s);
}

/// How many dependents a settled restart held: every graph event but the
/// target's own.
pub open spec fn held_count(d: SupervisorHeldRestartSettlement) -> nat {
    if d.graph_events@.len() == 0 { 0 } else { (d.graph_events@.len() - 1) as nat }
}

/// Why services that never started are now Failed, or released, when the
/// target's route out of Backoff had no line of its own; then the
/// dependents' transitions and starts.
pub open spec fn held_restart_msgs(d: SupervisorHeldRestartSettlement) -> Seq<ConsoleMessageView> {
    (match d.outcome {
        SupervisorHeldRestartOutcome::Released => msg_ok(
            "peinit: service "@ + d.target@ + " is back: "@ + decimal(held_count(d))
                + " dependent(s) held for its restart released\n"@,
        ),
        SupervisorHeldRestartOutcome::Abandoned(reason) => msg_error(
            "peinit: service "@ + d.target@ + " "@ + abandon_reason_text(reason) + ": "@
                + decimal(d.service_transitions@.len()) + " dependent(s) held for its restart failed\n"@,
        ),
    }) + transitions_msgs(d.service_transitions@) + starts_msgs(d.start_dispatches@)
}

fn collect_held_restart_settlement(d: &SupervisorHeldRestartSettlement, out: &mut Vec<ConsoleMessage>)
    ensures
        messages_view(final(out)@) == messages_view(old(out)@) + held_restart_msgs(*d),
{
    let ghost start = messages_view(out@);
    let held = d.graph_events.len().saturating_sub(1);
    match d.outcome {
        SupervisorHeldRestartOutcome::Released => {
            let mut s = String::from_str("peinit: service ");
            append_string(&mut s, &d.target);
            s.append(" is back: ");
            append_decimal(&mut s, held as u64);
            s.append(" dependent(s) held for its restart released\n");
            push_ok(out, s);
        },
        SupervisorHeldRestartOutcome::Abandoned(reason) => {
            let mut s = String::from_str("peinit: service ");
            append_string(&mut s, &d.target);
            s.append(" ");
            s.append(abandon_reason_str(reason));
            s.append(": ");
            append_decimal(&mut s, d.service_transitions.len() as u64);
            s.append(" dependent(s) held for its restart failed\n");
            push_error(out, s);
        },
    }
    collect_service_transitions_console_messages(&d.service_transitions, out);
    collect_start_dispatches_console_messages(&d.start_dispatches, out);
    assert(messages_view(out@) == start + held_restart_msgs(*d));
}

pub open spec fn control_operation_failures_msgs(s: Seq<SupervisorControlOperationFailureDispatch>) -> Seq<ConsoleMessageView> {
    flat_map(s, |d: SupervisorControlOperationFailureDispatch| control_operation_failure_msgs(d))
}

fn collect_control_operation_failures(ds: &Vec<SupervisorControlOperationFailureDispatch>, out: &mut Vec<ConsoleMessage>)
    ensures
        messages_view(final(out)@) == messages_view(old(out)@) + control_operation_failures_msgs(ds@),
{
    let ghost start = messages_view(out@);
    let n = ds.len();
    let mut i: usize = 0;
    while i < n
        invariant
            n == ds@.len(),
            0 <= i <= n,
            messages_view(out@) == start + control_operation_failures_msgs(ds@.take(i as int)),
        decreases n - i,
    {
        let d = &ds[i];
        push_control_operation_failure(d, out);
        proof {
            lemma_flat_map_step(ds@, |d: SupervisorControlOperationFailureDispatch| control_operation_failure_msgs(d), i as int);
        }
        i += 1;
    }
    proof {
        lemma_flat_map_all(ds@, |d: SupervisorControlOperationFailureDispatch| control_operation_failure_msgs(d));
    }
}


pub open spec fn held_restarts_msgs(s: Seq<SupervisorHeldRestartSettlement>) -> Seq<ConsoleMessageView> {
    flat_map(s, |d: SupervisorHeldRestartSettlement| held_restart_msgs(d))
}

fn collect_held_restart_settlements(ds: &Vec<SupervisorHeldRestartSettlement>, out: &mut Vec<ConsoleMessage>)
    ensures
        messages_view(final(out)@) == messages_view(old(out)@) + held_restarts_msgs(ds@),
{
    let ghost start = messages_view(out@);
    let n = ds.len();
    let mut i: usize = 0;
    while i < n
        invariant
            n == ds@.len(),
            0 <= i <= n,
            messages_view(out@) == start + held_restarts_msgs(ds@.take(i as int)),
        decreases n - i,
    {
        let d = &ds[i];
        collect_held_restart_settlement(d, out);
        proof {
            lemma_flat_map_step(ds@, |d: SupervisorHeldRestartSettlement| held_restart_msgs(d), i as int);
        }
        i += 1;
    }
    proof {
        lemma_flat_map_all(ds@, |d: SupervisorHeldRestartSettlement| held_restart_msgs(d));
    }
}


pub open spec fn service_launches_msgs(s: Seq<SupervisorLaunchDispatch>) -> Seq<ConsoleMessageView> {
    flat_map(s, |d: SupervisorLaunchDispatch| service_started_msgs(d.started.job_event) + starts_msgs(d.start_dispatches@))
}

fn collect_service_launches(ds: &Vec<SupervisorLaunchDispatch>, out: &mut Vec<ConsoleMessage>)
    ensures
        messages_view(final(out)@) == messages_view(old(out)@) + service_launches_msgs(ds@),
{
    let ghost start = messages_view(out@);
    let n = ds.len();
    let mut i: usize = 0;
    while i < n
        invariant
            n == ds@.len(),
            0 <= i <= n,
            messages_view(out@) == start + service_launches_msgs(ds@.take(i as int)),
        decreases n - i,
    {
        let d = &ds[i];
        push_service_started(out, &d.started.job_event); collect_start_dispatches_console_messages(&d.start_dispatches, out);
        proof {
            lemma_flat_map_step(ds@, |d: SupervisorLaunchDispatch| service_started_msgs(d.started.job_event) + starts_msgs(d.start_dispatches@), i as int);
        }
        i += 1;
    }
    proof {
        lemma_flat_map_all(ds@, |d: SupervisorLaunchDispatch| service_started_msgs(d.started.job_event) + starts_msgs(d.start_dispatches@));
    }
}


pub open spec fn service_launch_failures_msgs(s: Seq<SupervisorLaunchFailureDispatch>) -> Seq<ConsoleMessageView> {
    flat_map(s, |d: SupervisorLaunchFailureDispatch| launch_failed_msgs(d.job_event) + transitions_msgs(d.failure.service_transitions@) + starts_msgs(d.start_dispatches@))
}

fn collect_service_launch_failures(ds: &Vec<SupervisorLaunchFailureDispatch>, out: &mut Vec<ConsoleMessage>)
    ensures
        messages_view(final(out)@) == messages_view(old(out)@) + service_launch_failures_msgs(ds@),
{
    let ghost start = messages_view(out@);
    let n = ds.len();
    let mut i: usize = 0;
    while i < n
        invariant
            n == ds@.len(),
            0 <= i <= n,
            messages_view(out@) == start + service_launch_failures_msgs(ds@.take(i as int)),
        decreases n - i,
    {
        let d = &ds[i];
        push_service_launch_failed(out, &d.job_event); collect_service_transitions_console_messages(&d.failure.service_transitions, out); collect_start_dispatches_console_messages(&d.start_dispatches, out);
        proof {
            lemma_flat_map_step(ds@, |d: SupervisorLaunchFailureDispatch| launch_failed_msgs(d.job_event) + transitions_msgs(d.failure.service_transitions@) + starts_msgs(d.start_dispatches@), i as int);
        }
        i += 1;
    }
    proof {
        lemma_flat_map_all(ds@, |d: SupervisorLaunchFailureDispatch| launch_failed_msgs(d.job_event) + transitions_msgs(d.failure.service_transitions@) + starts_msgs(d.start_dispatches@));
    }
}


pub open spec fn start_hook_launch_failures_msgs(s: Seq<SupervisorLaunchFailureDispatch>) -> Seq<ConsoleMessageView> {
    flat_map(s, |d: SupervisorLaunchFailureDispatch| transitions_msgs(d.failure.service_transitions@) + starts_msgs(d.start_dispatches@))
}

fn collect_start_hook_launch_failures(ds: &Vec<SupervisorLaunchFailureDispatch>, out: &mut Vec<ConsoleMessage>)
    ensures
        messages_view(final(out)@) == messages_view(old(out)@) + start_hook_launch_failures_msgs(ds@),
{
    let ghost start = messages_view(out@);
    let n = ds.len();
    let mut i: usize = 0;
    while i < n
        invariant
            n == ds@.len(),
            0 <= i <= n,
            messages_view(out@) == start + start_hook_launch_failures_msgs(ds@.take(i as int)),
        decreases n - i,
    {
        let d = &ds[i];
        collect_service_transitions_console_messages(&d.failure.service_transitions, out); collect_start_dispatches_console_messages(&d.start_dispatches, out);
        proof {
            lemma_flat_map_step(ds@, |d: SupervisorLaunchFailureDispatch| transitions_msgs(d.failure.service_transitions@) + starts_msgs(d.start_dispatches@), i as int);
        }
        i += 1;
    }
    proof {
        lemma_flat_map_all(ds@, |d: SupervisorLaunchFailureDispatch| transitions_msgs(d.failure.service_transitions@) + starts_msgs(d.start_dispatches@));
    }
}


pub open spec fn post_hook_launch_failures_msgs(s: Seq<SupervisorPostStartHookTerminalDispatch>) -> Seq<ConsoleMessageView> {
    flat_map(s, |d: SupervisorPostStartHookTerminalDispatch| post_start_hook_terminal_msgs(d))
}

fn collect_post_hook_launch_failures(ds: &Vec<SupervisorPostStartHookTerminalDispatch>, out: &mut Vec<ConsoleMessage>)
    ensures
        messages_view(final(out)@) == messages_view(old(out)@) + post_hook_launch_failures_msgs(ds@),
{
    let ghost start = messages_view(out@);
    let n = ds.len();
    let mut i: usize = 0;
    while i < n
        invariant
            n == ds@.len(),
            0 <= i <= n,
            messages_view(out@) == start + post_hook_launch_failures_msgs(ds@.take(i as int)),
        decreases n - i,
    {
        let d = &ds[i];
        collect_post_start_hook_terminal_dispatch_console_messages(d, out);
        proof {
            lemma_flat_map_step(ds@, |d: SupervisorPostStartHookTerminalDispatch| post_start_hook_terminal_msgs(d), i as int);
        }
        i += 1;
    }
    proof {
        lemma_flat_map_all(ds@, |d: SupervisorPostStartHookTerminalDispatch| post_start_hook_terminal_msgs(d));
    }
}


pub open spec fn health_check_launch_failures_msgs(s: Seq<SupervisorHealthCheckLaunchFailureDispatch>) -> Seq<ConsoleMessageView> {
    flat_map(s, |d: SupervisorHealthCheckLaunchFailureDispatch| health_check_terminal_msgs(d.terminal))
}

fn collect_health_check_launch_failures(ds: &Vec<SupervisorHealthCheckLaunchFailureDispatch>, out: &mut Vec<ConsoleMessage>)
    ensures
        messages_view(final(out)@) == messages_view(old(out)@) + health_check_launch_failures_msgs(ds@),
{
    let ghost start = messages_view(out@);
    let n = ds.len();
    let mut i: usize = 0;
    while i < n
        invariant
            n == ds@.len(),
            0 <= i <= n,
            messages_view(out@) == start + health_check_launch_failures_msgs(ds@.take(i as int)),
        decreases n - i,
    {
        let d = &ds[i];
        collect_health_check_terminal_console_messages(&d.terminal, out);
        proof {
            lemma_flat_map_step(ds@, |d: SupervisorHealthCheckLaunchFailureDispatch| health_check_terminal_msgs(d.terminal), i as int);
        }
        i += 1;
    }
    proof {
        lemma_flat_map_all(ds@, |d: SupervisorHealthCheckLaunchFailureDispatch| health_check_terminal_msgs(d.terminal));
    }
}


/// Everything the drained work says, in the order it was drained.
pub open spec fn work_pump_msgs(t: RuntimeWorkPumpTurn) -> Seq<ConsoleMessageView> {
    control_operation_failures_msgs(t.control_operation_failures@) + held_restarts_msgs(t.held_restart_settlements@)
        + service_launches_msgs(t.service_launches@) + service_launch_failures_msgs(t.service_launch_failures@)
        + start_hook_launch_failures_msgs(t.start_hook_launch_failures@)
        + post_hook_launch_failures_msgs(t.post_hook_launch_failures@)
        + health_check_launch_failures_msgs(t.health_check_launch_failures@)
}

pub fn collect_runtime_work_pump_console_messages(t: &RuntimeWorkPumpTurn, out: &mut Vec<ConsoleMessage>)
    ensures
        messages_view(final(out)@) == messages_view(old(out)@) + work_pump_msgs(*t),
{
    let ghost start = messages_view(out@);
    collect_control_operation_failures(&t.control_operation_failures, out);
    collect_held_restart_settlements(&t.held_restart_settlements, out);
    collect_service_launches(&t.service_launches, out);
    collect_service_launch_failures(&t.service_launch_failures, out);
    collect_start_hook_launch_failures(&t.start_hook_launch_failures, out);
    collect_post_hook_launch_failures(&t.post_hook_launch_failures, out);
    collect_health_check_launch_failures(&t.health_check_launch_failures, out);
    assert(messages_view(out@) == start + work_pump_msgs(*t));
}

/// Every control operation that failed before it began is said on the
/// console, first among what the drained work says and in the order the
/// failures came: one error line per failure naming its service, the
/// operation and its id, and why.
pub proof fn law_every_control_operation_failure_is_said(t: RuntimeWorkPumpTurn, k: int)
    requires
        0 <= k < t.control_operation_failures@.len(),
    ensures
        ({
            let d = t.control_operation_failures@[k];
            work_pump_msgs(t)[k] == (ConsoleMessageView {
                text: "peinit: service "@ + d.service@ + ": "@ + d.operation_type.spec_name() + " operation "@
                    + decimal(d.operation_id as nat) + " failed before it began: "@ + d.error@ + "\n"@,
                severity: ConsoleSeverity::Error,
                tag: ConsoleTag::Failed,
            })
        }),
{
    let f = |d: SupervisorControlOperationFailureDispatch| control_operation_failure_msgs(d);
    lemma_flat_map_singletons(t.control_operation_failures@, f);
    let first = control_operation_failures_msgs(t.control_operation_failures@);
    assert(first[k] == f(t.control_operation_failures@[k])[0]);
    assert(work_pump_msgs(t)[k] == first[k]);
}

} // verus!
