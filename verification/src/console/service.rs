//! What the console says about services: their transitions, the starts the
//! graph released, launches, Critical failures and internal errors.
use vstd::prelude::*;
use vstd::string::*;
use crate::seqs::{flat_map, lemma_flat_map_step, lemma_flat_map_all, opt_view};
use crate::text::append_string;
use crate::console::message::{ConsoleMessage, ConsoleMessageView, messages_view, msg_status, msg_ok, msg_skip, msg_warn, msg_error, msg_critical, push_message, push_ok, push_skip, push_warn, push_error, push_critical};
use crate::model::service::{ServiceState, TransitionCause, ServiceTableTransition};
use crate::model::job::{JobEvent};
use crate::model::dispatch::{StartExecutionDispatch, RestartStartExecutionDispatch, StartFailureDispatch, SupervisorInternalErrorDispatch};
use crate::model::shutdown::{CleanupActionResult, ShutdownFinalizationState, SupervisorShutdownFinalizationDispatch, CriticalRebootTrigger, SupervisorCriticalBudgetRebootDispatch, RuntimePendingShutdownFinalization, RuntimeShutdownFinalizationTurn};

verus! {

/// The causes of a skip that are boot problems worth a line. A service queued
/// on a busy console (`TtyUnavailable`) is the mechanism working, and a line
/// about it would land on the very terminal its new owner is drawing on.
pub open spec fn spec_skipped_for_boot_problem(cause: TransitionCause) -> bool {
    match cause {
        TransitionCause::DependencyFailure | TransitionCause::CycleDetected
        | TransitionCause::ValidationError | TransitionCause::AssertionError
        | TransitionCause::ConditionSkipped => true,
        _ => false,
    }
}

pub fn skipped_for_boot_problem(cause: TransitionCause) -> (r: bool)
    ensures
        r == spec_skipped_for_boot_problem(cause),
{
    match cause {
        TransitionCause::DependencyFailure | TransitionCause::CycleDetected
        | TransitionCause::ValidationError | TransitionCause::AssertionError
        | TransitionCause::ConditionSkipped => true,
        _ => false,
    }
}

/// What one transition says: a failure, a skip for a boot problem, or an
/// abandonment; nothing for any other transition.
pub open spec fn transition_msgs(t: ServiceTableTransition) -> Seq<ConsoleMessageView> {
    let e = t.event;
    match e.to {
        ServiceState::Failed => msg_error(
            "peinit: service "@ + e.service@ + " failed: "@ + e.cause.spec_name() + "\n"@,
        ),
        ServiceState::Skipped => if spec_skipped_for_boot_problem(e.cause) {
            msg_skip("peinit: service "@ + e.service@ + " skipped: "@ + e.cause.spec_name() + "\n"@)
        } else {
            Seq::empty()
        },
        ServiceState::Abandoned => msg_error("peinit: service "@ + e.service@ + " abandoned\n"@),
        _ => Seq::empty(),
    }
}

pub open spec fn transitions_msgs(s: Seq<ServiceTableTransition>) -> Seq<ConsoleMessageView> {
    flat_map(s, |t: ServiceTableTransition| transition_msgs(t))
}

pub open spec fn opt_transition_msgs(t: Option<ServiceTableTransition>) -> Seq<ConsoleMessageView> {
    match t {
        Some(t) => transition_msgs(t),
        None => Seq::empty(),
    }
}

/// What a released start says: the skip it cleared, then its transition.
pub open spec fn start_msgs(d: StartExecutionDispatch) -> Seq<ConsoleMessageView> {
    opt_transition_msgs(d.cleared_skipped) + transition_msgs(d.service_transition)
}

pub open spec fn starts_msgs(s: Seq<StartExecutionDispatch>) -> Seq<ConsoleMessageView> {
    flat_map(s, |d: StartExecutionDispatch| start_msgs(d))
}

pub open spec fn restart_starts_msgs(s: Seq<RestartStartExecutionDispatch>) -> Seq<ConsoleMessageView> {
    flat_map(s, |d: RestartStartExecutionDispatch| transition_msgs(d.service_transition))
}

pub fn collect_service_transition_console_message(t: &ServiceTableTransition, out: &mut Vec<ConsoleMessage>)
    ensures
        messages_view(final(out)@) == messages_view(old(out)@) + transition_msgs(*t),
{
    let event = &t.event;
    match event.to {
        ServiceState::Failed => {
            let mut s = String::from_str("peinit: service ");
            append_string(&mut s, &event.service);
            s.append(" failed: ");
            s.append(event.cause.name());
            s.append("\n");
            push_error(out, s);
        },
        ServiceState::Skipped => {
            if skipped_for_boot_problem(event.cause) {
                let mut s = String::from_str("peinit: service ");
                append_string(&mut s, &event.service);
                s.append(" skipped: ");
                s.append(event.cause.name());
                s.append("\n");
                push_skip(out, s);
            } else {
                assert(messages_view(out@) == messages_view(old(out)@) + Seq::<ConsoleMessageView>::empty());
            }
        },
        ServiceState::Abandoned => {
            let mut s = String::from_str("peinit: service ");
            append_string(&mut s, &event.service);
            s.append(" abandoned\n");
            push_error(out, s);
        },
        _ => {
            assert(messages_view(out@) == messages_view(old(out)@) + Seq::<ConsoleMessageView>::empty());
        },
    }
}

pub fn collect_service_transitions_console_messages(ts: &Vec<ServiceTableTransition>, out: &mut Vec<ConsoleMessage>)
    ensures
        messages_view(final(out)@) == messages_view(old(out)@) + transitions_msgs(ts@),
{
    let ghost start = messages_view(out@);
    let n = ts.len();
    let mut i: usize = 0;
    while i < n
        invariant
            n == ts@.len(),
            0 <= i <= n,
            messages_view(out@) == start + transitions_msgs(ts@.take(i as int)),
        decreases n - i,
    {
        collect_service_transition_console_message(&ts[i], out);
        proof {
            lemma_flat_map_step(ts@, |t: ServiceTableTransition| transition_msgs(t), i as int);
        }
        i += 1;
    }
    proof {
        lemma_flat_map_all(ts@, |t: ServiceTableTransition| transition_msgs(t));
    }
}

pub fn collect_start_dispatch_console_messages(d: &StartExecutionDispatch, out: &mut Vec<ConsoleMessage>)
    ensures
        messages_view(final(out)@) == messages_view(old(out)@) + start_msgs(*d),
{
    let ghost start = messages_view(out@);
    match &d.cleared_skipped {
        Some(cleared) => collect_service_transition_console_message(cleared, out),
        None => {},
    }
    collect_service_transition_console_message(&d.service_transition, out);
    assert(messages_view(out@) == start + start_msgs(*d));
}

pub fn collect_start_dispatches_console_messages(ds: &Vec<StartExecutionDispatch>, out: &mut Vec<ConsoleMessage>)
    ensures
        messages_view(final(out)@) == messages_view(old(out)@) + starts_msgs(ds@),
{
    let ghost start = messages_view(out@);
    let n = ds.len();
    let mut i: usize = 0;
    while i < n
        invariant
            n == ds@.len(),
            0 <= i <= n,
            messages_view(out@) == start + starts_msgs(ds@.take(i as int)),
        decreases n - i,
    {
        collect_start_dispatch_console_messages(&ds[i], out);
        proof {
            lemma_flat_map_step(ds@, |d: StartExecutionDispatch| start_msgs(d), i as int);
        }
        i += 1;
    }
    proof {
        lemma_flat_map_all(ds@, |d: StartExecutionDispatch| start_msgs(d));
    }
}

pub fn collect_restart_start_dispatches_console_messages(ds: &Vec<RestartStartExecutionDispatch>, out: &mut Vec<ConsoleMessage>)
    ensures
        messages_view(final(out)@) == messages_view(old(out)@) + restart_starts_msgs(ds@),
{
    let ghost start = messages_view(out@);
    let n = ds.len();
    let mut i: usize = 0;
    while i < n
        invariant
            n == ds@.len(),
            0 <= i <= n,
            messages_view(out@) == start + restart_starts_msgs(ds@.take(i as int)),
        decreases n - i,
    {
        collect_service_transition_console_message(&ds[i].service_transition, out);
        proof {
            lemma_flat_map_step(ds@, |d: RestartStartExecutionDispatch| transition_msgs(d.service_transition), i as int);
        }
        i += 1;
    }
    proof {
        lemma_flat_map_all(ds@, |d: RestartStartExecutionDispatch| transition_msgs(d.service_transition));
    }
}

pub fn collect_start_failure_console_messages(d: &StartFailureDispatch, out: &mut Vec<ConsoleMessage>)
    ensures
        messages_view(final(out)@) == messages_view(old(out)@) + transitions_msgs(d.service_transitions@),
{
    collect_service_transitions_console_messages(&d.service_transitions, out);
}

/// The line an internal error contained to one service gets: the service,
/// the step peinit could not carry out, and the error.
pub open spec fn internal_error_text(d: SupervisorInternalErrorDispatch) -> Seq<char> {
    match d.service {
        Some(service) => "peinit: service "@ + service@ + ": internal error at "@ + d.step@ + ": "@ + d.error@
            + "; the service is failed"@,
        None => "peinit: internal error at "@ + d.step@ + ": "@ + d.error@,
    }
}

impl SupervisorInternalErrorDispatch {
    /// What went wrong, in one line.
    pub fn message(&self) -> (s: String)
        ensures
            s@ == internal_error_text(*self),
    {
        match &self.service {
            Some(service) => {
                let mut s = String::from_str("peinit: service ");
                append_string(&mut s, service);
                s.append(": internal error at ");
                append_string(&mut s, &self.step);
                s.append(": ");
                append_string(&mut s, &self.error);
                s.append("; the service is failed");
                s
            },
            None => {
                let mut s = String::from_str("peinit: internal error at ");
                append_string(&mut s, &self.step);
                s.append(": ");
                append_string(&mut s, &self.error);
                s
            },
        }
    }
}

/// A `[FAILED]` line naming the service, the step and the error, then the
/// transition a failure gets anyway, then whatever the failure's reactions
/// started. Loud on purpose: a quiet downgrade would hide the fault.
pub open spec fn internal_error_msgs(d: SupervisorInternalErrorDispatch) -> Seq<ConsoleMessageView> {
    msg_error(internal_error_text(d) + "\n"@) + opt_transition_msgs(d.service_transition) + starts_msgs(d.start_dispatches@)
}

pub fn push_internal_error_messages(out: &mut Vec<ConsoleMessage>, d: &SupervisorInternalErrorDispatch)
    ensures
        messages_view(final(out)@) == messages_view(old(out)@) + internal_error_msgs(*d),
{
    let ghost start = messages_view(out@);
    let mut s = d.message();
    s.append("\n");
    push_error(out, s);
    match &d.service_transition {
        Some(t) => collect_service_transition_console_message(t, out),
        None => {},
    }
    collect_start_dispatches_console_messages(&d.start_dispatches, out);
    assert(messages_view(out@) == start + internal_error_msgs(*d));
}

pub open spec fn service_started_msgs(e: JobEvent) -> Seq<ConsoleMessageView> {
    match e.service {
        Some(service) => msg_ok("peinit: service "@ + service@ + " started\n"@),
        None => Seq::empty(),
    }
}

pub fn push_service_started(out: &mut Vec<ConsoleMessage>, e: &JobEvent)
    ensures
        messages_view(final(out)@) == messages_view(old(out)@) + service_started_msgs(*e),
{
    match &e.service {
        Some(service) => {
            let mut s = String::from_str("peinit: service ");
            append_string(&mut s, service);
            s.append(" started\n");
            push_ok(out, s);
        },
        None => {
            assert(messages_view(out@) == messages_view(old(out)@) + Seq::<ConsoleMessageView>::empty());
        },
    }
}

/// A launch fails before exec, and the cause is what tells its reasons apart.
pub open spec fn launch_failed_msgs(e: JobEvent) -> Seq<ConsoleMessageView> {
    match e.service {
        Some(service) => match e.failure_cause {
            Some(cause) => msg_error("peinit: service "@ + service@ + " failed to launch: "@ + cause@ + "\n"@),
            None => msg_error("peinit: service "@ + service@ + " failed to launch\n"@),
        },
        None => Seq::empty(),
    }
}

pub fn push_service_launch_failed(out: &mut Vec<ConsoleMessage>, e: &JobEvent)
    ensures
        messages_view(final(out)@) == messages_view(old(out)@) + launch_failed_msgs(*e),
{
    match &e.service {
        Some(service) => {
            let mut s = String::from_str("peinit: service ");
            append_string(&mut s, service);
            match &e.failure_cause {
                Some(cause) => {
                    s.append(" failed to launch: ");
                    append_string(&mut s, cause);
                    s.append("\n");
                },
                None => {
                    s.append(" failed to launch\n");
                },
            }
            push_error(out, s);
        },
        None => {
            assert(messages_view(out@) == messages_view(old(out)@) + Seq::<ConsoleMessageView>::empty());
        },
    }
}

pub open spec fn critical_failure_msgs(service: Seq<char>, reason: Seq<char>) -> Seq<ConsoleMessageView> {
    msg_critical("peinit: critical service "@ + service + " failed: "@ + reason + "\n"@)
}

pub fn push_critical_service_failure(out: &mut Vec<ConsoleMessage>, service: &str, reason: &str)
    ensures
        messages_view(final(out)@) == messages_view(old(out)@) + critical_failure_msgs(service@, reason@),
{
    let mut s = String::from_str("peinit: critical service ");
    s.append(service);
    s.append(" failed: ");
    s.append(reason);
    s.append("\n");
    push_critical(out, s);
}

/// The machine is rebooting because a Critical service ran out of restart
/// budget: what spent it, where one path did, then the consequence.
pub open spec fn budget_reboot_announcement_msgs(service: Seq<char>, trigger: CriticalRebootTrigger) -> Seq<ConsoleMessageView> {
    (match trigger.spec_console_reason() {
        Some(reason) => critical_failure_msgs(service, reason),
        None => Seq::empty(),
    }) + msg_critical("peinit: critical service "@ + service + " exhausted its restart budget; rebooting\n"@)
}

pub fn push_critical_budget_reboot_announcement(out: &mut Vec<ConsoleMessage>, service: &String, trigger: CriticalRebootTrigger)
    ensures
        messages_view(final(out)@) == messages_view(old(out)@) + budget_reboot_announcement_msgs(service@, trigger),
{
    let ghost start = messages_view(out@);
    match trigger.console_reason() {
        Some(reason) => push_critical_service_failure(out, service.as_str(), reason),
        None => {},
    }
    let mut s = String::from_str("peinit: critical service ");
    append_string(&mut s, service);
    s.append(" exhausted its restart budget; rebooting\n");
    push_critical(out, s);
    assert(messages_view(out@) == start + budget_reboot_announcement_msgs(service@, trigger));
}

pub open spec fn finalization_state_msgs(f: ShutdownFinalizationState) -> Seq<ConsoleMessageView> {
    match f {
        ShutdownFinalizationState::WaitingForServices => Seq::empty(),
        ShutdownFinalizationState::Ready => msg_status("peinit: shutdown ready to finalize\n"@),
        ShutdownFinalizationState::Failed { message, .. } => msg_warn(
            "peinit: shutdown final action failed: "@ + message@ + "\n"@,
        ),
        ShutdownFinalizationState::Completed => msg_ok("peinit: shutdown completed\n"@),
    }
}

pub fn collect_shutdown_finalization_state_console_message(f: &ShutdownFinalizationState, out: &mut Vec<ConsoleMessage>)
    ensures
        messages_view(final(out)@) == messages_view(old(out)@) + finalization_state_msgs(*f),
{
    match f {
        ShutdownFinalizationState::WaitingForServices => {
            assert(messages_view(out@) == messages_view(old(out)@) + Seq::<ConsoleMessageView>::empty());
        },
        ShutdownFinalizationState::Ready => {
            push_message(out, String::from_str("peinit: shutdown ready to finalize\n"));
        },
        ShutdownFinalizationState::Failed { message, .. } => {
            let mut s = String::from_str("peinit: shutdown final action failed: ");
            append_string(&mut s, message);
            s.append("\n");
            push_warn(out, s);
        },
        ShutdownFinalizationState::Completed => {
            push_ok(out, String::from_str("peinit: shutdown completed\n"));
        },
    }
}

pub open spec fn seed_failure_msgs(r: CleanupActionResult) -> Seq<ConsoleMessageView> {
    match r {
        CleanupActionResult::Failed(message) => msg_status(
            "peinit warning: shutdown random seed save failed: "@ + message@ + "\n"@,
        ),
        _ => Seq::empty(),
    }
}

fn push_seed_failure(out: &mut Vec<ConsoleMessage>, r: &CleanupActionResult)
    ensures
        messages_view(final(out)@) == messages_view(old(out)@) + seed_failure_msgs(*r),
{
    match r {
        CleanupActionResult::Failed(message) => {
            let mut s = String::from_str("peinit warning: shutdown random seed save failed: ");
            append_string(&mut s, message);
            s.append("\n");
            push_message(out, s);
        },
        _ => {
            assert(messages_view(out@) == messages_view(old(out)@) + Seq::<ConsoleMessageView>::empty());
        },
    }
}

/// The outcome of a final action: everything but the "finalizing" line,
/// which was said before the action.
pub open spec fn finalization_result_msgs(d: SupervisorShutdownFinalizationDispatch) -> Seq<ConsoleMessageView> {
    seed_failure_msgs(d.report.random_seed) + finalization_state_msgs(d.finalization)
}

pub fn collect_shutdown_finalization_result_console_messages(d: &SupervisorShutdownFinalizationDispatch, out: &mut Vec<ConsoleMessage>)
    ensures
        messages_view(final(out)@) == messages_view(old(out)@) + finalization_result_msgs(*d),
{
    let ghost start = messages_view(out@);
    push_seed_failure(out, &d.report.random_seed);
    collect_shutdown_finalization_state_console_message(&d.finalization, out);
    assert(messages_view(out@) == start + finalization_result_msgs(*d));
}

/// A final action taken in full, the "finalizing" line included.
pub open spec fn finalization_dispatch_msgs(d: SupervisorShutdownFinalizationDispatch) -> Seq<ConsoleMessageView> {
    msg_status("peinit: shutdown finalizing\n"@) + finalization_result_msgs(d)
}

pub fn collect_shutdown_finalization_dispatch_console_messages(d: &SupervisorShutdownFinalizationDispatch, out: &mut Vec<ConsoleMessage>)
    ensures
        messages_view(final(out)@) == messages_view(old(out)@) + finalization_dispatch_msgs(*d),
{
    let ghost start = messages_view(out@);
    push_message(out, String::from_str("peinit: shutdown finalizing\n"));
    collect_shutdown_finalization_result_console_messages(d, out);
    assert(messages_view(out@) == start + finalization_dispatch_msgs(*d));
}

/// A Critical reboot raised inline, with its outcome: seen in full only when
/// the reboot returned, so the operator learns the machine is still up.
pub open spec fn budget_reboot_msgs(d: SupervisorCriticalBudgetRebootDispatch) -> Seq<ConsoleMessageView> {
    budget_reboot_announcement_msgs(d.service@, d.trigger) + finalization_state_msgs(d.finalization.finalization)
}

pub fn push_critical_budget_reboot_messages(out: &mut Vec<ConsoleMessage>, d: &SupervisorCriticalBudgetRebootDispatch)
    ensures
        messages_view(final(out)@) == messages_view(old(out)@) + budget_reboot_msgs(*d),
{
    let ghost start = messages_view(out@);
    push_critical_budget_reboot_announcement(out, &d.service, d.trigger);
    collect_shutdown_finalization_state_console_message(&d.finalization.finalization, out);
    assert(messages_view(out@) == start + budget_reboot_msgs(*d));
}

/// What the runtime says before the final action it is about to take: the
/// action does not return on success, and nothing said after it is heard.
pub open spec fn pending_finalization_msgs(p: RuntimePendingShutdownFinalization) -> Seq<ConsoleMessageView> {
    match p {
        RuntimePendingShutdownFinalization::CriticalBudgetReboot(owed) => budget_reboot_announcement_msgs(owed.service@, owed.trigger),
        RuntimePendingShutdownFinalization::FinalAction => msg_status("peinit: shutdown finalizing\n"@),
    }
}

pub fn push_pending_shutdown_finalization_messages(out: &mut Vec<ConsoleMessage>, p: &RuntimePendingShutdownFinalization)
    ensures
        messages_view(final(out)@) == messages_view(old(out)@) + pending_finalization_msgs(*p),
{
    match p {
        RuntimePendingShutdownFinalization::CriticalBudgetReboot(owed) => {
            push_critical_budget_reboot_announcement(out, &owed.service, owed.trigger);
        },
        RuntimePendingShutdownFinalization::FinalAction => {
            push_message(out, String::from_str("peinit: shutdown finalizing\n"));
        },
    }
}

/// What a final action that returned has to report: the state the Critical
/// reboot left, then the outcome of the shutdown's own action. Nothing
/// announced beforehand is said again.
pub open spec fn finalization_turn_msgs(t: RuntimeShutdownFinalizationTurn) -> Seq<ConsoleMessageView> {
    (match t.critical_budget_reboot {
        Some(reboot) => finalization_state_msgs(reboot.finalization.finalization),
        None => Seq::empty(),
    }) + (match t.finalization {
        Some(d) => finalization_result_msgs(d),
        None => Seq::empty(),
    })
}

pub fn collect_shutdown_finalization_turn_console_messages(t: &RuntimeShutdownFinalizationTurn, out: &mut Vec<ConsoleMessage>)
    ensures
        messages_view(final(out)@) == messages_view(old(out)@) + finalization_turn_msgs(*t),
{
    let ghost start = messages_view(out@);
    match &t.critical_budget_reboot {
        Some(reboot) => collect_shutdown_finalization_state_console_message(&reboot.finalization.finalization, out),
        None => {},
    }
    match &t.finalization {
        Some(d) => collect_shutdown_finalization_result_console_messages(d, out),
        None => {},
    }
    assert(messages_view(out@) == start + finalization_turn_msgs(*t));
}

} // verus!
