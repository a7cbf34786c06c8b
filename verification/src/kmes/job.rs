//! Audit records for the job-level dispatches: starts, launches, terminals
//! and timeouts.
use vstd::prelude::*;
use crate::seqs::{flat_map, lemma_flat_map_step, lemma_flat_map_all};
use crate::kmes::event::{KmesEvent, KmesEventView, events_view, job_rec, opt_job_rec, op_rec, ops_recs, graphs_recs, jobs_recs, starts_recs, critical_failure_rec, push_job, push_opt_job, push_operation, push_operations, push_graphs, push_jobs, collect_start_dispatches, collect_on_demand_start, push_critical_failure};
use crate::model::dispatch::{PreStartCheckCompletionDispatch, JobTimeoutDispatch, ReadinessTimeoutDispatch, ServiceMainJobStartedDispatch, ServiceMainJobTerminalDispatch, StartFailureDispatch, HookTerminalDispatch, LaunchCreatedJobDispatch, ControlExecutionDetail, ReloadCommandDispatch, RestartStartExecutionDispatch};
use crate::model::supervisor::{SupervisorControlDispatch, SupervisorLaunchDispatch, SupervisorLaunchFailureDispatch, SupervisorPreStartHookTerminalDispatch, SupervisorPostStartHookTerminalDispatch, SupervisorHealthCheckTerminalDispatch, SupervisorTerminalDispatch};
use crate::model::deadline::{SupervisorRestartBackoffDispatch, SupervisorHealthCheckIntervalAction, SupervisorHealthCheckIntervalDispatch, SupervisorWatchdogTimeoutDispatch};

verus! {


pub open spec fn pre_start_check_completion_recs(d: PreStartCheckCompletionDispatch) -> Seq<KmesEventView> {
    opt_job_rec(d.job_event) + ops_recs(d.operation_events@) + graphs_recs(d.graph_events@)
}

pub fn collect_pre_start_check_completion(d: &PreStartCheckCompletionDispatch, out: &mut Vec<KmesEvent>)
    ensures
        events_view(final(out)@) == events_view(old(out)@) + pre_start_check_completion_recs(*d),
{
    let ghost start = events_view(out@);
    push_opt_job(out, &d.job_event);
    push_operations(&d.operation_events, out);
    push_graphs(&d.graph_events, out);
    assert(events_view(out@) == start + pre_start_check_completion_recs(*d));
}

/// A hook or a service main that ran out of time: its job, its operations,
/// its graph events.
pub open spec fn job_timeout_recs(d: JobTimeoutDispatch) -> Seq<KmesEventView> {
    job_rec(d.job_event) + ops_recs(d.operation_events@) + graphs_recs(d.graph_events@)
}

pub fn collect_job_timeout(d: &JobTimeoutDispatch, out: &mut Vec<KmesEvent>)
    ensures
        events_view(final(out)@) == events_view(old(out)@) + job_timeout_recs(*d),
{
    let ghost start = events_view(out@);
    push_job(out, &d.job_event);
    push_operations(&d.operation_events, out);
    push_graphs(&d.graph_events, out);
    assert(events_view(out@) == start + job_timeout_recs(*d));
}

pub open spec fn readiness_timeout_recs(d: ReadinessTimeoutDispatch) -> Seq<KmesEventView> {
    ops_recs(d.operation_events@) + graphs_recs(d.graph_events@)
}

pub fn collect_readiness_timeout(d: &ReadinessTimeoutDispatch, out: &mut Vec<KmesEvent>)
    ensures
        events_view(final(out)@) == events_view(old(out)@) + readiness_timeout_recs(*d),
{
    let ghost start = events_view(out@);
    push_operations(&d.operation_events, out);
    push_graphs(&d.graph_events, out);
    assert(events_view(out@) == start + readiness_timeout_recs(*d));
}

pub open spec fn service_main_started_recs(d: ServiceMainJobStartedDispatch) -> Seq<KmesEventView> {
    ops_recs(d.operation_events@) + graphs_recs(d.graph_events@) + opt_job_rec(d.post_start_hook)
}

pub fn collect_service_main_started(d: &ServiceMainJobStartedDispatch, out: &mut Vec<KmesEvent>)
    ensures
        events_view(final(out)@) == events_view(old(out)@) + service_main_started_recs(*d),
{
    let ghost start = events_view(out@);
    push_operations(&d.operation_events, out);
    push_graphs(&d.graph_events, out);
    push_opt_job(out, &d.post_start_hook);
    assert(events_view(out@) == start + service_main_started_recs(*d));
}

pub open spec fn start_failure_recs(d: StartFailureDispatch) -> Seq<KmesEventView> {
    ops_recs(d.operation_events@) + graphs_recs(d.graph_events@)
}

pub fn collect_start_failure(d: &StartFailureDispatch, out: &mut Vec<KmesEvent>)
    ensures
        events_view(final(out)@) == events_view(old(out)@) + start_failure_recs(*d),
{
    let ghost start = events_view(out@);
    push_operations(&d.operation_events, out);
    push_graphs(&d.graph_events, out);
    assert(events_view(out@) == start + start_failure_recs(*d));
}

/// A hook that ended: its job, the hook started in its place, its operations
/// and graph events.
pub open spec fn hook_terminal_recs(d: HookTerminalDispatch) -> Seq<KmesEventView> {
    job_rec(d.job_event) + opt_job_rec(d.next_job_event) + ops_recs(d.operation_events@) + graphs_recs(d.graph_events@)
}

pub fn collect_hook_terminal(d: &HookTerminalDispatch, out: &mut Vec<KmesEvent>)
    ensures
        events_view(final(out)@) == events_view(old(out)@) + hook_terminal_recs(*d),
{
    let ghost start = events_view(out@);
    push_job(out, &d.job_event);
    push_opt_job(out, &d.next_job_event);
    push_operations(&d.operation_events, out);
    push_graphs(&d.graph_events, out);
    assert(events_view(out@) == start + hook_terminal_recs(*d));
}

pub open spec fn pre_start_hook_terminal_recs(d: SupervisorPreStartHookTerminalDispatch) -> Seq<KmesEventView> {
    hook_terminal_recs(d.terminal) + starts_recs(d.start_dispatches@)
}

pub fn collect_pre_start_hook_terminal_dispatch(d: &SupervisorPreStartHookTerminalDispatch, out: &mut Vec<KmesEvent>)
    ensures
        events_view(final(out)@) == events_view(old(out)@) + pre_start_hook_terminal_recs(*d),
{
    let ghost start = events_view(out@);
    collect_hook_terminal(&d.terminal, out);
    collect_start_dispatches(&d.start_dispatches, out);
    assert(events_view(out@) == start + pre_start_hook_terminal_recs(*d));
}

pub open spec fn post_start_hook_terminal_recs(d: SupervisorPostStartHookTerminalDispatch) -> Seq<KmesEventView> {
    hook_terminal_recs(d.terminal) + starts_recs(d.start_dispatches@)
}

pub fn collect_post_start_hook_terminal_dispatch(d: &SupervisorPostStartHookTerminalDispatch, out: &mut Vec<KmesEvent>)
    ensures
        events_view(final(out)@) == events_view(old(out)@) + post_start_hook_terminal_recs(*d),
{
    let ghost start = events_view(out@);
    collect_hook_terminal(&d.terminal, out);
    collect_start_dispatches(&d.start_dispatches, out);
    assert(events_view(out@) == start + post_start_hook_terminal_recs(*d));
}

pub fn collect_launch(d: &LaunchCreatedJobDispatch, out: &mut Vec<KmesEvent>)
    ensures
        events_view(final(out)@) == events_view(old(out)@) + job_rec(d.job_event),
{
    push_job(out, &d.job_event);
}

/// A control operation: its operation, the reload command job it ran, and
/// the reload jobs it cancelled.
pub open spec fn control_dispatch_recs(d: SupervisorControlDispatch) -> Seq<KmesEventView> {
    op_rec(d.execution.operation_event) + (match d.execution.detail {
        ControlExecutionDetail::ReloadCommand { job_event } => job_rec(job_event),
        _ => Seq::empty(),
    }) + jobs_recs(d.execution.cancelled_reload_jobs@)
}

pub fn collect_control_dispatch(d: &SupervisorControlDispatch, out: &mut Vec<KmesEvent>)
    ensures
        events_view(final(out)@) == events_view(old(out)@) + control_dispatch_recs(*d),
{
    let ghost start = events_view(out@);
    push_operation(out, &d.execution.operation_event);
    match &d.execution.detail {
        ControlExecutionDetail::ReloadCommand { job_event } => push_job(out, job_event),
        _ => {},
    }
    push_jobs(&d.execution.cancelled_reload_jobs, out);
    assert(events_view(out@) == start + control_dispatch_recs(*d));
}

pub open spec fn service_launch_recs(d: SupervisorLaunchDispatch) -> Seq<KmesEventView> {
    job_rec(d.launch.job_event) + service_main_started_recs(d.started) + starts_recs(d.start_dispatches@)
}

pub fn collect_service_launch(d: &SupervisorLaunchDispatch, out: &mut Vec<KmesEvent>)
    ensures
        events_view(final(out)@) == events_view(old(out)@) + service_launch_recs(*d),
{
    let ghost start = events_view(out@);
    collect_launch(&d.launch, out);
    collect_service_main_started(&d.started, out);
    collect_start_dispatches(&d.start_dispatches, out);
    assert(events_view(out@) == start + service_launch_recs(*d));
}

/// A launch that failed before exec, of a service main or a start hook.
pub open spec fn launch_failure_recs(d: SupervisorLaunchFailureDispatch) -> Seq<KmesEventView> {
    job_rec(d.job_event) + start_failure_recs(d.failure) + starts_recs(d.start_dispatches@)
}

pub fn collect_launch_failure(d: &SupervisorLaunchFailureDispatch, out: &mut Vec<KmesEvent>)
    ensures
        events_view(final(out)@) == events_view(old(out)@) + launch_failure_recs(*d),
{
    let ghost start = events_view(out@);
    push_job(out, &d.job_event);
    collect_start_failure(&d.failure, out);
    collect_start_dispatches(&d.start_dispatches, out);
    assert(events_view(out@) == start + launch_failure_recs(*d));
}

pub open spec fn main_terminal_recs(d: ServiceMainJobTerminalDispatch) -> Seq<KmesEventView> {
    job_rec(d.job_event) + ops_recs(d.operation_events@) + graphs_recs(d.graph_events@) + opt_job_rec(d.post_start_hook)
}

fn collect_service_main_terminal(d: &ServiceMainJobTerminalDispatch, out: &mut Vec<KmesEvent>)
    ensures
        events_view(final(out)@) == events_view(old(out)@) + main_terminal_recs(*d),
{
    let ghost start = events_view(out@);
    push_job(out, &d.job_event);
    push_operations(&d.operation_events, out);
    push_graphs(&d.graph_events, out);
    push_opt_job(out, &d.post_start_hook);
    assert(events_view(out@) == start + main_terminal_recs(*d));
}

pub open spec fn restart_starts_recs(s: Seq<RestartStartExecutionDispatch>) -> Seq<KmesEventView> {
    flat_map(s, |d: RestartStartExecutionDispatch| job_rec(d.job_event))
}

fn collect_restart_start_dispatches(ds: &Vec<RestartStartExecutionDispatch>, out: &mut Vec<KmesEvent>)
    ensures
        events_view(final(out)@) == events_view(old(out)@) + restart_starts_recs(ds@),
{
    let ghost start = events_view(out@);
    let n = ds.len();
    let mut i: usize = 0;
    while i < n
        invariant
            n == ds@.len(),
            0 <= i <= n,
            events_view(out@) == start + restart_starts_recs(ds@.take(i as int)),
        decreases n - i,
    {
        let d = &ds[i];
        push_job(out, &d.job_event);
        proof {
            lemma_flat_map_step(ds@, |d: RestartStartExecutionDispatch| job_rec(d.job_event), i as int);
        }
        i += 1;
    }
    proof {
        lemma_flat_map_all(ds@, |d: RestartStartExecutionDispatch| job_rec(d.job_event));
    }
}


/// A service main that ended: its records, its cleanup jobs, the starts it
/// released, and the Critical failure it raised.
pub open spec fn terminal_dispatch_recs(d: SupervisorTerminalDispatch) -> Seq<KmesEventView> {
    main_terminal_recs(d.terminal) + jobs_recs(d.cleanup_job_events@) + starts_recs(d.start_dispatches@)
        + restart_starts_recs(d.restart_start_dispatches@) + (if d.critical_reboot is Some && d.terminal.job_event.service is Some {
        critical_failure_rec(d.terminal.job_event.service.unwrap()@, "service_main_terminal"@)
    } else {
        Seq::empty()
    })
}

pub fn collect_terminal_dispatch(d: &SupervisorTerminalDispatch, out: &mut Vec<KmesEvent>)
    ensures
        events_view(final(out)@) == events_view(old(out)@) + terminal_dispatch_recs(*d),
{
    let ghost start = events_view(out@);
    collect_service_main_terminal(&d.terminal, out);
    push_jobs(&d.cleanup_job_events, out);
    collect_start_dispatches(&d.start_dispatches, out);
    collect_restart_start_dispatches(&d.restart_start_dispatches, out);
    if d.critical_reboot.is_some() {
        match &d.terminal.job_event.service {
            Some(service) => push_critical_failure(out, service, "service_main_terminal"),
            None => {},
        }
    }
    assert(events_view(out@) == start + terminal_dispatch_recs(*d));
}

pub open spec fn health_check_terminal_recs(d: SupervisorHealthCheckTerminalDispatch) -> Seq<KmesEventView> {
    job_rec(d.job_event) + opt_job_rec(d.service_job_event) + (if d.critical_reboot is Some && d.job_event.service is Some {
        critical_failure_rec(d.job_event.service.unwrap()@, "health_check_failure"@)
    } else {
        Seq::empty()
    })
}

pub fn collect_health_check_terminal(d: &SupervisorHealthCheckTerminalDispatch, out: &mut Vec<KmesEvent>)
    ensures
        events_view(final(out)@) == events_view(old(out)@) + health_check_terminal_recs(*d),
{
    let ghost start = events_view(out@);
    push_job(out, &d.job_event);
    push_opt_job(out, &d.service_job_event);
    if d.critical_reboot.is_some() {
        match &d.job_event.service {
            Some(service) => push_critical_failure(out, service, "health_check_failure"),
            None => {},
        }
    }
    assert(events_view(out@) == start + health_check_terminal_recs(*d));
}

/// A reload command that ended or ran out of time: its job and operation.
pub open spec fn reload_command_recs(d: ReloadCommandDispatch) -> Seq<KmesEventView> {
    job_rec(d.job_event) + op_rec(d.operation_event)
}

pub fn collect_reload_command(d: &ReloadCommandDispatch, out: &mut Vec<KmesEvent>)
    ensures
        events_view(final(out)@) == events_view(old(out)@) + reload_command_recs(*d),
{
    let ghost start = events_view(out@);
    push_job(out, &d.job_event);
    push_operation(out, &d.operation_event);
    assert(events_view(out@) == start + reload_command_recs(*d));
}

pub open spec fn restart_backoff_recs(d: SupervisorRestartBackoffDispatch) -> Seq<KmesEventView> {
    ops_recs(d.relaunch.admission.events@) + starts_recs(d.relaunch.start_dispatches@)
}

pub fn collect_restart_backoff(d: &SupervisorRestartBackoffDispatch, out: &mut Vec<KmesEvent>)
    ensures
        events_view(final(out)@) == events_view(old(out)@) + restart_backoff_recs(*d),
{
    let ghost start = events_view(out@);
    collect_on_demand_start(&d.relaunch.admission, out);
    collect_start_dispatches(&d.relaunch.start_dispatches, out);
    assert(events_view(out@) == start + restart_backoff_recs(*d));
}

pub open spec fn health_check_interval_recs(d: SupervisorHealthCheckIntervalDispatch) -> Seq<KmesEventView> {
    match d.action {
        SupervisorHealthCheckIntervalAction::Created { job_event } => job_rec(job_event),
        SupervisorHealthCheckIntervalAction::Skipped => Seq::empty(),
    }
}

pub fn collect_health_check_interval(d: &SupervisorHealthCheckIntervalDispatch, out: &mut Vec<KmesEvent>)
    ensures
        events_view(final(out)@) == events_view(old(out)@) + health_check_interval_recs(*d),
{
    match &d.action {
        SupervisorHealthCheckIntervalAction::Created { job_event } => push_job(out, job_event),
        SupervisorHealthCheckIntervalAction::Skipped => {
            assert(events_view(out@) == events_view(old(out)@) + Seq::<KmesEventView>::empty());
        },
    }
}

pub open spec fn watchdog_timeout_recs(d: SupervisorWatchdogTimeoutDispatch) -> Seq<KmesEventView> {
    opt_job_rec(d.job_event) + (if d.critical_reboot is Some {
        critical_failure_rec(d.service@, "watchdog_timeout"@)
    } else {
        Seq::empty()
    })
}

pub fn collect_watchdog_timeout(d: &SupervisorWatchdogTimeoutDispatch, out: &mut Vec<KmesEvent>)
    ensures
        events_view(final(out)@) == events_view(old(out)@) + watchdog_timeout_recs(*d),
{
    let ghost start = events_view(out@);
    push_opt_job(out, &d.job_event);
    if d.critical_reboot.is_some() {
        push_critical_failure(out, &d.service, "watchdog_timeout");
    }
    assert(events_view(out@) == start + watchdog_timeout_recs(*d));
}

} // verus!
