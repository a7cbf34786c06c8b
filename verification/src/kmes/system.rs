//! Audit records for system-level dispatches: control commands and their
//! refusals, lifecycle deadlines, reaped children, shutdowns and timers.
use vstd::prelude::*;
use vstd::string::*;
use crate::seqs::{flat_map, lemma_flat_map_step, lemma_flat_map_all};
use crate::kmes::event::{KmesEvent, KmesEventView, events_view, rec, job_rec, op_rec, opt_op_rec, ops_recs, jobs_recs, starts_recs, internal_error_recs, abandoned_rec, push_record, push_job, push_jobs, push_operation, push_opt_operation, push_operations, collect_start_dispatches, collect_operation_request_outcome, collect_on_demand_start, push_internal_error, push_shutdown_abandoned};
use crate::kmes::job::{pre_start_check_completion_recs, job_timeout_recs, readiness_timeout_recs, pre_start_hook_terminal_recs, post_start_hook_terminal_recs, terminal_dispatch_recs, health_check_terminal_recs, reload_command_recs, restart_backoff_recs, health_check_interval_recs, watchdog_timeout_recs, collect_pre_start_check_completion, collect_job_timeout, collect_readiness_timeout, collect_pre_start_hook_terminal_dispatch, collect_post_start_hook_terminal_dispatch, collect_terminal_dispatch, collect_health_check_terminal, collect_reload_command, collect_restart_backoff, collect_health_check_interval, collect_watchdog_timeout};
use crate::kmes::submitted::{jobs_command_recs, job_access_denied_rec, submitted_deadline_recs, collect_jobs_command_dispatch, push_job_access_denied, collect_submitted_deadline};
use crate::model::dispatch::{ReloadCommandDispatch, ReloadDetectionCompletion, ReloadDetectionPhase, SupervisorInternalErrorDispatch, SupervisorLeakedCgroupDispatch};
use crate::model::supervisor::{ServiceAccessDenied, SystemAccessDenied, JobAccessDenied, SupervisorHealthCheckTerminalDispatch, SupervisorSubmittedDeadlineDispatch};
use crate::model::control::{LifecycleCommandOutcome, SupervisorLifecycleDispatch, ReloadConfigOutcome, ReloadConfigError, SupervisorControlCommandDispatch, SupervisorControlCommandBodyError, SupervisorSystemShutdownControlBodyError, SupervisorControlFrameTurn, SupervisorControlConnectionTableTurn};
use crate::model::deadline::{SupervisorLifecycleDeadlineDispatch, SupervisorPreStartCheckTimeoutDispatch, SupervisorHookTimeoutDispatch, SupervisorReadinessTimeoutDispatch, SupervisorRestartBackoffDispatch, SupervisorRestartBackoffFailureDispatch, SupervisorHealthCheckIntervalDispatch, SupervisorWatchdogTimeoutDispatch, SupervisorTimerAction, SupervisorTimerDispatch};
use crate::model::stop::{SupervisorShutdownDispatch, SupervisorShutdownSignalAction, SupervisorShutdownSignalDispatch, SupervisorPid1SignalFdTurn, SupervisorPowerButtonAction, SupervisorPowerButtonDispatch, SupervisorShutdownAbandonedDispatch, SupervisorShutdownDriveDispatch, SupervisorShutdownTerminalDispatch};
use crate::model::turn::{SupervisorChildReapTurn, SupervisorChildReapDispatch};

verus! {


pub open spec fn service_access_denied_rec(d: ServiceAccessDenied) -> Seq<KmesEventView> {
    rec("access.denied"@, Some(d.service@), None, d.caller@)
}

pub open spec fn system_access_denied_rec(d: SystemAccessDenied) -> Seq<KmesEventView> {
    rec("access.denied"@, None, None, d.caller@)
}

fn push_service_access_denied(out: &mut Vec<KmesEvent>, d: &ServiceAccessDenied)
    ensures
        events_view(final(out)@) == events_view(old(out)@) + service_access_denied_rec(*d),
{
    push_record(out, "access.denied", Some(d.service.clone()), None, d.caller.clone());
}

fn push_system_access_denied(out: &mut Vec<KmesEvent>, d: &SystemAccessDenied)
    ensures
        events_view(final(out)@) == events_view(old(out)@) + system_access_denied_rec(*d),
{
    push_record(out, "access.denied", None, None, d.caller.clone());
}

pub open spec fn service_denials_recs(s: Seq<ServiceAccessDenied>) -> Seq<KmesEventView> {
    flat_map(s, |d: ServiceAccessDenied| service_access_denied_rec(d))
}

fn collect_access_denials(ds: &Vec<ServiceAccessDenied>, out: &mut Vec<KmesEvent>)
    ensures
        events_view(final(out)@) == events_view(old(out)@) + service_denials_recs(ds@),
{
    let ghost start = events_view(out@);
    let n = ds.len();
    let mut i: usize = 0;
    while i < n
        invariant
            n == ds@.len(),
            0 <= i <= n,
            events_view(out@) == start + service_denials_recs(ds@.take(i as int)),
        decreases n - i,
    {
        let d = &ds[i];
        push_service_access_denied(out, d);
        proof {
            lemma_flat_map_step(ds@, |d: ServiceAccessDenied| service_access_denied_rec(d), i as int);
        }
        i += 1;
    }
    proof {
        lemma_flat_map_all(ds@, |d: ServiceAccessDenied| service_access_denied_rec(d));
    }
}


pub open spec fn job_denials_recs(s: Seq<JobAccessDenied>) -> Seq<KmesEventView> {
    flat_map(s, |d: JobAccessDenied| job_access_denied_rec(d))
}

fn collect_job_access_denials(ds: &Vec<JobAccessDenied>, out: &mut Vec<KmesEvent>)
    ensures
        events_view(final(out)@) == events_view(old(out)@) + job_denials_recs(ds@),
{
    let ghost start = events_view(out@);
    let n = ds.len();
    let mut i: usize = 0;
    while i < n
        invariant
            n == ds@.len(),
            0 <= i <= n,
            events_view(out@) == start + job_denials_recs(ds@.take(i as int)),
        decreases n - i,
    {
        let d = &ds[i];
        push_job_access_denied(out, d);
        proof {
            lemma_flat_map_step(ds@, |d: JobAccessDenied| job_access_denied_rec(d), i as int);
        }
        i += 1;
    }
    proof {
        lemma_flat_map_all(ds@, |d: JobAccessDenied| job_access_denied_rec(d));
    }
}


fn push_validation_error(out: &mut Vec<KmesEvent>, finding: &String)
    ensures
        events_view(final(out)@) == events_view(old(out)@) + rec("graph.validation_error"@, None, None, finding@),
{
    push_record(out, "graph.validation_error", None, None, finding.clone());
}

fn push_validation_warning(out: &mut Vec<KmesEvent>, warning: &String)
    ensures
        events_view(final(out)@) == events_view(old(out)@) + rec("graph.validation_warning"@, None, None, warning@),
{
    push_record(out, "graph.validation_warning", None, None, warning.clone());
}

pub open spec fn validation_errors_recs(s: Seq<String>) -> Seq<KmesEventView> {
    flat_map(s, |d: String| rec("graph.validation_error"@, None, None, d@))
}

fn collect_validation_errors(ds: &Vec<String>, out: &mut Vec<KmesEvent>)
    ensures
        events_view(final(out)@) == events_view(old(out)@) + validation_errors_recs(ds@),
{
    let ghost start = events_view(out@);
    let n = ds.len();
    let mut i: usize = 0;
    while i < n
        invariant
            n == ds@.len(),
            0 <= i <= n,
            events_view(out@) == start + validation_errors_recs(ds@.take(i as int)),
        decreases n - i,
    {
        let d = &ds[i];
        push_validation_error(out, d);
        proof {
            lemma_flat_map_step(ds@, |d: String| rec("graph.validation_error"@, None, None, d@), i as int);
        }
        i += 1;
    }
    proof {
        lemma_flat_map_all(ds@, |d: String| rec("graph.validation_error"@, None, None, d@));
    }
}


pub open spec fn validation_warnings_recs(s: Seq<String>) -> Seq<KmesEventView> {
    flat_map(s, |d: String| rec("graph.validation_warning"@, None, None, d@))
}

fn collect_reload_config_warnings(ds: &Vec<String>, out: &mut Vec<KmesEvent>)
    ensures
        events_view(final(out)@) == events_view(old(out)@) + validation_warnings_recs(ds@),
{
    let ghost start = events_view(out@);
    let n = ds.len();
    let mut i: usize = 0;
    while i < n
        invariant
            n == ds@.len(),
            0 <= i <= n,
            events_view(out@) == start + validation_warnings_recs(ds@.take(i as int)),
        decreases n - i,
    {
        let d = &ds[i];
        push_validation_warning(out, d);
        proof {
            lemma_flat_map_step(ds@, |d: String| rec("graph.validation_warning"@, None, None, d@), i as int);
        }
        i += 1;
    }
    proof {
        lemma_flat_map_all(ds@, |d: String| rec("graph.validation_warning"@, None, None, d@));
    }
}


pub open spec fn shutdown_dispatch_recs(d: SupervisorShutdownDispatch) -> Seq<KmesEventView> {
    ops_recs(d.startup_operation_events@) + jobs_recs(d.startup_job_events@)
}

/// A shutdown begun: the operations and jobs of the starts it cut short.
pub fn collect_shutdown_dispatch(d: &SupervisorShutdownDispatch, out: &mut Vec<KmesEvent>)
    ensures
        events_view(final(out)@) == events_view(old(out)@) + shutdown_dispatch_recs(*d),
{
    let ghost start = events_view(out@);
    push_operations(&d.startup_operation_events, out);
    push_jobs(&d.startup_job_events, out);
    assert(events_view(out@) == start + shutdown_dispatch_recs(*d));
}

pub open spec fn lifecycle_outcome_recs(o: LifecycleCommandOutcome) -> Seq<KmesEventView> {
    match o {
        LifecycleCommandOutcome::OperationAccepted(r) => ops_recs(r.events@),
        LifecycleCommandOutcome::OnDemandStart(d) => ops_recs(d.events@),
        LifecycleCommandOutcome::SynchronousClear(c) => ops_recs(c.request.events@) + op_rec(c.started) + op_rec(c.completed),
        _ => Seq::empty(),
    }
}

fn collect_lifecycle_outcome(o: &LifecycleCommandOutcome, out: &mut Vec<KmesEvent>)
    ensures
        events_view(final(out)@) == events_view(old(out)@) + lifecycle_outcome_recs(*o),
{
    let ghost start = events_view(out@);
    match o {
        LifecycleCommandOutcome::OperationAccepted(r) => collect_operation_request_outcome(r, out),
        LifecycleCommandOutcome::OnDemandStart(d) => collect_on_demand_start(d, out),
        LifecycleCommandOutcome::SynchronousClear(c) => {
            collect_operation_request_outcome(&c.request, out);
            push_operation(out, &c.started);
            push_operation(out, &c.completed);
        },
        _ => {},
    }
    assert(events_view(out@) == start + lifecycle_outcome_recs(*o));
}

pub open spec fn lifecycle_dispatch_recs(d: SupervisorLifecycleDispatch) -> Seq<KmesEventView> {
    lifecycle_outcome_recs(d.outcome) + starts_recs(d.start_dispatches@)
}

fn collect_lifecycle_dispatch(d: &SupervisorLifecycleDispatch, out: &mut Vec<KmesEvent>)
    ensures
        events_view(final(out)@) == events_view(old(out)@) + lifecycle_dispatch_recs(*d),
{
    let ghost start = events_view(out@);
    collect_lifecycle_outcome(&d.outcome, out);
    collect_start_dispatches(&d.start_dispatches, out);
    assert(events_view(out@) == start + lifecycle_dispatch_recs(*d));
}

pub open spec fn control_command_recs(d: SupervisorControlCommandDispatch) -> Seq<KmesEventView> {
    match d {
        SupervisorControlCommandDispatch::Shutdown(s) => shutdown_dispatch_recs(s.shutdown),
        SupervisorControlCommandDispatch::Lifecycle(l) => lifecycle_dispatch_recs(*l),
        SupervisorControlCommandDispatch::ReloadConfig(o) => validation_warnings_recs(o.warnings@),
        SupervisorControlCommandDispatch::Job(j) => jobs_command_recs(j),
    }
}

fn collect_control_command_dispatch(d: &SupervisorControlCommandDispatch, out: &mut Vec<KmesEvent>)
    ensures
        events_view(final(out)@) == events_view(old(out)@) + control_command_recs(*d),
{
    match d {
        SupervisorControlCommandDispatch::Shutdown(s) => collect_shutdown_dispatch(&s.shutdown, out),
        SupervisorControlCommandDispatch::Lifecycle(l) => collect_lifecycle_dispatch(l, out),
        SupervisorControlCommandDispatch::ReloadConfig(o) => collect_reload_config_warnings(&o.warnings, out),
        SupervisorControlCommandDispatch::Job(j) => collect_jobs_command_dispatch(j, out),
    }
}

/// A refused command: who was denied what, or each finding of a reload that
/// failed validation.
pub open spec fn command_rejection_recs(e: SupervisorControlCommandBodyError) -> Seq<KmesEventView> {
    match e {
        SupervisorControlCommandBodyError::SystemAccessDenied(d) => system_access_denied_rec(d),
        SupervisorControlCommandBodyError::ServiceAccessDenied(d) => service_access_denied_rec(d),
        SupervisorControlCommandBodyError::JobAccessDenied(d) => job_access_denied_rec(d),
        SupervisorControlCommandBodyError::ReloadConfig(ReloadConfigError::Validation { findings }) => validation_errors_recs(findings@),
        _ => Seq::empty(),
    }
}

fn collect_control_command_rejection(e: &SupervisorControlCommandBodyError, out: &mut Vec<KmesEvent>)
    ensures
        events_view(final(out)@) == events_view(old(out)@) + command_rejection_recs(*e),
{
    match e {
        SupervisorControlCommandBodyError::SystemAccessDenied(d) => push_system_access_denied(out, d),
        SupervisorControlCommandBodyError::ServiceAccessDenied(d) => push_service_access_denied(out, d),
        SupervisorControlCommandBodyError::JobAccessDenied(d) => push_job_access_denied(out, d),
        SupervisorControlCommandBodyError::ReloadConfig(ReloadConfigError::Validation { findings }) => collect_validation_errors(findings, out),
        _ => {
            assert(events_view(out@) == events_view(old(out)@) + Seq::<KmesEventView>::empty());
        },
    }
}

pub open spec fn control_frame_recs(f: SupervisorControlFrameTurn) -> Seq<KmesEventView> {
    match f {
        SupervisorControlFrameTurn::ShutdownAccepted { dispatch } => shutdown_dispatch_recs(dispatch.shutdown),
        SupervisorControlFrameTurn::CommandAccepted { dispatch, access_denials, job_access_denials } => service_denials_recs(
            access_denials@,
        ) + job_denials_recs(job_access_denials@) + (match dispatch {
            Some(d) => control_command_recs(*d),
            None => Seq::empty(),
        }),
        SupervisorControlFrameTurn::ShutdownRejected { error } => match error {
            SupervisorSystemShutdownControlBodyError::AccessDenied(d) => system_access_denied_rec(d),
            _ => Seq::empty(),
        },
        SupervisorControlFrameTurn::CommandRejected { error } => command_rejection_recs(error),
        _ => Seq::empty(),
    }
}

fn collect_control_frame_turn(f: &SupervisorControlFrameTurn, out: &mut Vec<KmesEvent>)
    ensures
        events_view(final(out)@) == events_view(old(out)@) + control_frame_recs(*f),
{
    let ghost start = events_view(out@);
    match f {
        SupervisorControlFrameTurn::ShutdownAccepted { dispatch } => collect_shutdown_dispatch(&dispatch.shutdown, out),
        SupervisorControlFrameTurn::CommandAccepted { dispatch, access_denials, job_access_denials } => {
            collect_access_denials(access_denials, out);
            collect_job_access_denials(job_access_denials, out);
            match dispatch {
                Some(d) => collect_control_command_dispatch(d, out),
                None => {},
            }
        },
        SupervisorControlFrameTurn::ShutdownRejected { error } => match error {
            SupervisorSystemShutdownControlBodyError::AccessDenied(d) => push_system_access_denied(out, d),
            _ => {},
        },
        SupervisorControlFrameTurn::CommandRejected { error } => collect_control_command_rejection(error, out),
        _ => {},
    }
    assert(events_view(out@) == start + control_frame_recs(*f));
}

pub open spec fn control_frames_recs(s: Seq<SupervisorControlFrameTurn>) -> Seq<KmesEventView> {
    flat_map(s, |d: SupervisorControlFrameTurn| control_frame_recs(d))
}

fn collect_control_frames(ds: &Vec<SupervisorControlFrameTurn>, out: &mut Vec<KmesEvent>)
    ensures
        events_view(final(out)@) == events_view(old(out)@) + control_frames_recs(ds@),
{
    let ghost start = events_view(out@);
    let n = ds.len();
    let mut i: usize = 0;
    while i < n
        invariant
            n == ds@.len(),
            0 <= i <= n,
            events_view(out@) == start + control_frames_recs(ds@.take(i as int)),
        decreases n - i,
    {
        let d = &ds[i];
        collect_control_frame_turn(d, out);
        proof {
            lemma_flat_map_step(ds@, |d: SupervisorControlFrameTurn| control_frame_recs(d), i as int);
        }
        i += 1;
    }
    proof {
        lemma_flat_map_all(ds@, |d: SupervisorControlFrameTurn| control_frame_recs(d));
    }
}


pub fn collect_control_connection_table_turn(t: &SupervisorControlConnectionTableTurn, out: &mut Vec<KmesEvent>)
    ensures
        events_view(final(out)@) == events_view(old(out)@) + control_frames_recs(t.frames@),
{
    collect_control_frames(&t.frames, out);
}

/// A service that announced `RELOADING=1` and never finished is recorded as
/// such before its operation: the operation alone carries no severity, and
/// nobody is necessarily reading it.
pub open spec fn reload_detection_recs(d: ReloadDetectionCompletion) -> Seq<KmesEventView> {
    (match d.phase {
        ReloadDetectionPhase::ExtendedWait => rec(
            "service.reload_unconfirmed"@,
            Some(d.operation_event.service@),
            None,
            Seq::empty(),
        ),
        ReloadDetectionPhase::DetectionWindow => Seq::empty(),
    }) + op_rec(d.operation_event)
}

fn collect_reload_detection(d: &ReloadDetectionCompletion, out: &mut Vec<KmesEvent>)
    ensures
        events_view(final(out)@) == events_view(old(out)@) + reload_detection_recs(*d),
{
    let ghost start = events_view(out@);
    match d.phase {
        ReloadDetectionPhase::ExtendedWait => {
            push_record(out, "service.reload_unconfirmed", Some(d.operation_event.service.clone()), None, String::new());
        },
        ReloadDetectionPhase::DetectionWindow => {},
    }
    push_operation(out, &d.operation_event);
    assert(events_view(out@) == start + reload_detection_recs(*d));
}

pub open spec fn cgroup_leak_rec(d: SupervisorLeakedCgroupDispatch) -> Seq<KmesEventView> {
    rec("cgroup.leaked"@, Some(d.service@), None, d.path@)
}

fn push_cgroup_leak(out: &mut Vec<KmesEvent>, d: &SupervisorLeakedCgroupDispatch)
    ensures
        events_view(final(out)@) == events_view(old(out)@) + cgroup_leak_rec(*d),
{
    push_record(out, "cgroup.leaked", Some(d.service.clone()), None, d.path.clone());
}

pub open spec fn pre_start_check_timeouts_recs(s: Seq<SupervisorPreStartCheckTimeoutDispatch>) -> Seq<KmesEventView> {
    flat_map(s, |d: SupervisorPreStartCheckTimeoutDispatch| pre_start_check_completion_recs(d.completion) + starts_recs(d.start_dispatches@))
}

fn collect_pre_start_check_timeouts(ds: &Vec<SupervisorPreStartCheckTimeoutDispatch>, out: &mut Vec<KmesEvent>)
    ensures
        events_view(final(out)@) == events_view(old(out)@) + pre_start_check_timeouts_recs(ds@),
{
    let ghost start = events_view(out@);
    let n = ds.len();
    let mut i: usize = 0;
    while i < n
        invariant
            n == ds@.len(),
            0 <= i <= n,
            events_view(out@) == start + pre_start_check_timeouts_recs(ds@.take(i as int)),
        decreases n - i,
    {
        let d = &ds[i];
        collect_pre_start_check_completion(&d.completion, out); collect_start_dispatches(&d.start_dispatches, out);
        proof {
            lemma_flat_map_step(ds@, |d: SupervisorPreStartCheckTimeoutDispatch| pre_start_check_completion_recs(d.completion) + starts_recs(d.start_dispatches@), i as int);
        }
        i += 1;
    }
    proof {
        lemma_flat_map_all(ds@, |d: SupervisorPreStartCheckTimeoutDispatch| pre_start_check_completion_recs(d.completion) + starts_recs(d.start_dispatches@));
    }
}


pub open spec fn hook_timeouts_recs(s: Seq<SupervisorHookTimeoutDispatch>) -> Seq<KmesEventView> {
    flat_map(s, |d: SupervisorHookTimeoutDispatch| job_timeout_recs(d.timeout) + starts_recs(d.start_dispatches@))
}

fn collect_hook_timeouts(ds: &Vec<SupervisorHookTimeoutDispatch>, out: &mut Vec<KmesEvent>)
    ensures
        events_view(final(out)@) == events_view(old(out)@) + hook_timeouts_recs(ds@),
{
    let ghost start = events_view(out@);
    let n = ds.len();
    let mut i: usize = 0;
    while i < n
        invariant
            n == ds@.len(),
            0 <= i <= n,
            events_view(out@) == start + hook_timeouts_recs(ds@.take(i as int)),
        decreases n - i,
    {
        let d = &ds[i];
        collect_job_timeout(&d.timeout, out); collect_start_dispatches(&d.start_dispatches, out);
        proof {
            lemma_flat_map_step(ds@, |d: SupervisorHookTimeoutDispatch| job_timeout_recs(d.timeout) + starts_recs(d.start_dispatches@), i as int);
        }
        i += 1;
    }
    proof {
        lemma_flat_map_all(ds@, |d: SupervisorHookTimeoutDispatch| job_timeout_recs(d.timeout) + starts_recs(d.start_dispatches@));
    }
}


pub open spec fn readiness_timeouts_recs(s: Seq<SupervisorReadinessTimeoutDispatch>) -> Seq<KmesEventView> {
    flat_map(s, |d: SupervisorReadinessTimeoutDispatch| readiness_timeout_recs(d.timeout) + starts_recs(d.start_dispatches@))
}

fn collect_readiness_timeouts(ds: &Vec<SupervisorReadinessTimeoutDispatch>, out: &mut Vec<KmesEvent>)
    ensures
        events_view(final(out)@) == events_view(old(out)@) + readiness_timeouts_recs(ds@),
{
    let ghost start = events_view(out@);
    let n = ds.len();
    let mut i: usize = 0;
    while i < n
        invariant
            n == ds@.len(),
            0 <= i <= n,
            events_view(out@) == start + readiness_timeouts_recs(ds@.take(i as int)),
        decreases n - i,
    {
        let d = &ds[i];
        collect_readiness_timeout(&d.timeout, out); collect_start_dispatches(&d.start_dispatches, out);
        proof {
            lemma_flat_map_step(ds@, |d: SupervisorReadinessTimeoutDispatch| readiness_timeout_recs(d.timeout) + starts_recs(d.start_dispatches@), i as int);
        }
        i += 1;
    }
    proof {
        lemma_flat_map_all(ds@, |d: SupervisorReadinessTimeoutDispatch| readiness_timeout_recs(d.timeout) + starts_recs(d.start_dispatches@));
    }
}


pub open spec fn reload_detections_recs(s: Seq<ReloadDetectionCompletion>) -> Seq<KmesEventView> {
    flat_map(s, |d: ReloadDetectionCompletion| reload_detection_recs(d))
}

fn collect_reload_detections(ds: &Vec<ReloadDetectionCompletion>, out: &mut Vec<KmesEvent>)
    ensures
        events_view(final(out)@) == events_view(old(out)@) + reload_detections_recs(ds@),
{
    let ghost start = events_view(out@);
    let n = ds.len();
    let mut i: usize = 0;
    while i < n
        invariant
            n == ds@.len(),
            0 <= i <= n,
            events_view(out@) == start + reload_detections_recs(ds@.take(i as int)),
        decreases n - i,
    {
        let d = &ds[i];
        collect_reload_detection(d, out);
        proof {
            lemma_flat_map_step(ds@, |d: ReloadDetectionCompletion| reload_detection_recs(d), i as int);
        }
        i += 1;
    }
    proof {
        lemma_flat_map_all(ds@, |d: ReloadDetectionCompletion| reload_detection_recs(d));
    }
}


pub open spec fn reload_command_timeouts_recs(s: Seq<ReloadCommandDispatch>) -> Seq<KmesEventView> {
    flat_map(s, |d: ReloadCommandDispatch| reload_command_recs(d))
}

fn collect_reload_command_timeouts(ds: &Vec<ReloadCommandDispatch>, out: &mut Vec<KmesEvent>)
    ensures
        events_view(final(out)@) == events_view(old(out)@) + reload_command_timeouts_recs(ds@),
{
    let ghost start = events_view(out@);
    let n = ds.len();
    let mut i: usize = 0;
    while i < n
        invariant
            n == ds@.len(),
            0 <= i <= n,
            events_view(out@) == start + reload_command_timeouts_recs(ds@.take(i as int)),
        decreases n - i,
    {
        let d = &ds[i];
        collect_reload_command(d, out);
        proof {
            lemma_flat_map_step(ds@, |d: ReloadCommandDispatch| reload_command_recs(d), i as int);
        }
        i += 1;
    }
    proof {
        lemma_flat_map_all(ds@, |d: ReloadCommandDispatch| reload_command_recs(d));
    }
}


pub open spec fn restart_backoffs_recs(s: Seq<SupervisorRestartBackoffDispatch>) -> Seq<KmesEventView> {
    flat_map(s, |d: SupervisorRestartBackoffDispatch| restart_backoff_recs(d))
}

fn collect_restart_backoffs(ds: &Vec<SupervisorRestartBackoffDispatch>, out: &mut Vec<KmesEvent>)
    ensures
        events_view(final(out)@) == events_view(old(out)@) + restart_backoffs_recs(ds@),
{
    let ghost start = events_view(out@);
    let n = ds.len();
    let mut i: usize = 0;
    while i < n
        invariant
            n == ds@.len(),
            0 <= i <= n,
            events_view(out@) == start + restart_backoffs_recs(ds@.take(i as int)),
        decreases n - i,
    {
        let d = &ds[i];
        collect_restart_backoff(d, out);
        proof {
            lemma_flat_map_step(ds@, |d: SupervisorRestartBackoffDispatch| restart_backoff_recs(d), i as int);
        }
        i += 1;
    }
    proof {
        lemma_flat_map_all(ds@, |d: SupervisorRestartBackoffDispatch| restart_backoff_recs(d));
    }
}


pub open spec fn restart_backoff_failures_recs(s: Seq<SupervisorRestartBackoffFailureDispatch>) -> Seq<KmesEventView> {
    flat_map(s, |d: SupervisorRestartBackoffFailureDispatch| opt_op_rec(d.operation_event))
}

fn collect_restart_backoff_failures(ds: &Vec<SupervisorRestartBackoffFailureDispatch>, out: &mut Vec<KmesEvent>)
    ensures
        events_view(final(out)@) == events_view(old(out)@) + restart_backoff_failures_recs(ds@),
{
    let ghost start = events_view(out@);
    let n = ds.len();
    let mut i: usize = 0;
    while i < n
        invariant
            n == ds@.len(),
            0 <= i <= n,
            events_view(out@) == start + restart_backoff_failures_recs(ds@.take(i as int)),
        decreases n - i,
    {
        let d = &ds[i];
        push_opt_operation(out, &d.operation_event);
        proof {
            lemma_flat_map_step(ds@, |d: SupervisorRestartBackoffFailureDispatch| opt_op_rec(d.operation_event), i as int);
        }
        i += 1;
    }
    proof {
        lemma_flat_map_all(ds@, |d: SupervisorRestartBackoffFailureDispatch| opt_op_rec(d.operation_event));
    }
}


pub open spec fn health_check_intervals_recs(s: Seq<SupervisorHealthCheckIntervalDispatch>) -> Seq<KmesEventView> {
    flat_map(s, |d: SupervisorHealthCheckIntervalDispatch| health_check_interval_recs(d))
}

fn collect_health_check_intervals(ds: &Vec<SupervisorHealthCheckIntervalDispatch>, out: &mut Vec<KmesEvent>)
    ensures
        events_view(final(out)@) == events_view(old(out)@) + health_check_intervals_recs(ds@),
{
    let ghost start = events_view(out@);
    let n = ds.len();
    let mut i: usize = 0;
    while i < n
        invariant
            n == ds@.len(),
            0 <= i <= n,
            events_view(out@) == start + health_check_intervals_recs(ds@.take(i as int)),
        decreases n - i,
    {
        let d = &ds[i];
        collect_health_check_interval(d, out);
        proof {
            lemma_flat_map_step(ds@, |d: SupervisorHealthCheckIntervalDispatch| health_check_interval_recs(d), i as int);
        }
        i += 1;
    }
    proof {
        lemma_flat_map_all(ds@, |d: SupervisorHealthCheckIntervalDispatch| health_check_interval_recs(d));
    }
}


pub open spec fn health_check_timeouts_recs(s: Seq<SupervisorHealthCheckTerminalDispatch>) -> Seq<KmesEventView> {
    flat_map(s, |d: SupervisorHealthCheckTerminalDispatch| health_check_terminal_recs(d))
}

fn collect_health_check_timeouts(ds: &Vec<SupervisorHealthCheckTerminalDispatch>, out: &mut Vec<KmesEvent>)
    ensures
        events_view(final(out)@) == events_view(old(out)@) + health_check_timeouts_recs(ds@),
{
    let ghost start = events_view(out@);
    let n = ds.len();
    let mut i: usize = 0;
    while i < n
        invariant
            n == ds@.len(),
            0 <= i <= n,
            events_view(out@) == start + health_check_timeouts_recs(ds@.take(i as int)),
        decreases n - i,
    {
        let d = &ds[i];
        collect_health_check_terminal(d, out);
        proof {
            lemma_flat_map_step(ds@, |d: SupervisorHealthCheckTerminalDispatch| health_check_terminal_recs(d), i as int);
        }
        i += 1;
    }
    proof {
        lemma_flat_map_all(ds@, |d: SupervisorHealthCheckTerminalDispatch| health_check_terminal_recs(d));
    }
}


pub open spec fn watchdog_timeouts_recs(s: Seq<SupervisorWatchdogTimeoutDispatch>) -> Seq<KmesEventView> {
    flat_map(s, |d: SupervisorWatchdogTimeoutDispatch| watchdog_timeout_recs(d))
}

fn collect_watchdog_timeouts(ds: &Vec<SupervisorWatchdogTimeoutDispatch>, out: &mut Vec<KmesEvent>)
    ensures
        events_view(final(out)@) == events_view(old(out)@) + watchdog_timeouts_recs(ds@),
{
    let ghost start = events_view(out@);
    let n = ds.len();
    let mut i: usize = 0;
    while i < n
        invariant
            n == ds@.len(),
            0 <= i <= n,
            events_view(out@) == start + watchdog_timeouts_recs(ds@.take(i as int)),
        decreases n - i,
    {
        let d = &ds[i];
        collect_watchdog_timeout(d, out);
        proof {
            lemma_flat_map_step(ds@, |d: SupervisorWatchdogTimeoutDispatch| watchdog_timeout_recs(d), i as int);
        }
        i += 1;
    }
    proof {
        lemma_flat_map_all(ds@, |d: SupervisorWatchdogTimeoutDispatch| watchdog_timeout_recs(d));
    }
}


pub open spec fn cgroup_leaks_recs(s: Seq<SupervisorLeakedCgroupDispatch>) -> Seq<KmesEventView> {
    flat_map(s, |d: SupervisorLeakedCgroupDispatch| cgroup_leak_rec(d))
}

fn collect_cgroup_leaks(ds: &Vec<SupervisorLeakedCgroupDispatch>, out: &mut Vec<KmesEvent>)
    ensures
        events_view(final(out)@) == events_view(old(out)@) + cgroup_leaks_recs(ds@),
{
    let ghost start = events_view(out@);
    let n = ds.len();
    let mut i: usize = 0;
    while i < n
        invariant
            n == ds@.len(),
            0 <= i <= n,
            events_view(out@) == start + cgroup_leaks_recs(ds@.take(i as int)),
        decreases n - i,
    {
        let d = &ds[i];
        push_cgroup_leak(out, d);
        proof {
            lemma_flat_map_step(ds@, |d: SupervisorLeakedCgroupDispatch| cgroup_leak_rec(d), i as int);
        }
        i += 1;
    }
    proof {
        lemma_flat_map_all(ds@, |d: SupervisorLeakedCgroupDispatch| cgroup_leak_rec(d));
    }
}


pub open spec fn submitted_deadlines_recs(s: Seq<SupervisorSubmittedDeadlineDispatch>) -> Seq<KmesEventView> {
    flat_map(s, |d: SupervisorSubmittedDeadlineDispatch| submitted_deadline_recs(d))
}

pub fn collect_submitted_deadlines(ds: &Vec<SupervisorSubmittedDeadlineDispatch>, out: &mut Vec<KmesEvent>)
    ensures
        events_view(final(out)@) == events_view(old(out)@) + submitted_deadlines_recs(ds@),
{
    let ghost start = events_view(out@);
    let n = ds.len();
    let mut i: usize = 0;
    while i < n
        invariant
            n == ds@.len(),
            0 <= i <= n,
            events_view(out@) == start + submitted_deadlines_recs(ds@.take(i as int)),
        decreases n - i,
    {
        let d = &ds[i];
        collect_submitted_deadline(d, out);
        proof {
            lemma_flat_map_step(ds@, |d: SupervisorSubmittedDeadlineDispatch| submitted_deadline_recs(d), i as int);
        }
        i += 1;
    }
    proof {
        lemma_flat_map_all(ds@, |d: SupervisorSubmittedDeadlineDispatch| submitted_deadline_recs(d));
    }
}


pub open spec fn internal_errors_recs(s: Seq<SupervisorInternalErrorDispatch>) -> Seq<KmesEventView> {
    flat_map(s, |d: SupervisorInternalErrorDispatch| internal_error_recs(d))
}

fn collect_internal_errors(ds: &Vec<SupervisorInternalErrorDispatch>, out: &mut Vec<KmesEvent>)
    ensures
        events_view(final(out)@) == events_view(old(out)@) + internal_errors_recs(ds@),
{
    let ghost start = events_view(out@);
    let n = ds.len();
    let mut i: usize = 0;
    while i < n
        invariant
            n == ds@.len(),
            0 <= i <= n,
            events_view(out@) == start + internal_errors_recs(ds@.take(i as int)),
        decreases n - i,
    {
        let d = &ds[i];
        push_internal_error(out, d);
        proof {
            lemma_flat_map_step(ds@, |d: SupervisorInternalErrorDispatch| internal_error_recs(d), i as int);
        }
        i += 1;
    }
    proof {
        lemma_flat_map_all(ds@, |d: SupervisorInternalErrorDispatch| internal_error_recs(d));
    }
}


/// Everything one firing of the lifecycle deadline timer records, in the
/// order the supervisor handled it.
pub open spec fn lifecycle_deadline_recs(d: SupervisorLifecycleDeadlineDispatch) -> Seq<KmesEventView> {
    pre_start_check_timeouts_recs(d.pre_start_check_timeouts@) + hook_timeouts_recs(d.pre_start_hook_timeouts@)
        + hook_timeouts_recs(d.post_start_hook_timeouts@) + readiness_timeouts_recs(d.readiness_timeouts@)
        + reload_detections_recs(d.reload_detections@) + reload_command_timeouts_recs(d.reload_command_timeouts@)
        + restart_backoffs_recs(d.restart_backoffs@) + restart_backoff_failures_recs(d.restart_backoff_failures@)
        + health_check_intervals_recs(d.health_check_intervals@) + health_check_timeouts_recs(d.health_check_timeouts@)
        + watchdog_timeouts_recs(d.watchdog_timeouts@) + cgroup_leaks_recs(d.cgroup_leaks@)
        + submitted_deadlines_recs(d.submitted_jobs@) + internal_errors_recs(d.internal_errors@)
}

pub fn collect_lifecycle_deadline_dispatch(d: &SupervisorLifecycleDeadlineDispatch, out: &mut Vec<KmesEvent>)
    ensures
        events_view(final(out)@) == events_view(old(out)@) + lifecycle_deadline_recs(*d),
{
    let ghost start = events_view(out@);
    collect_pre_start_check_timeouts(&d.pre_start_check_timeouts, out);
    collect_hook_timeouts(&d.pre_start_hook_timeouts, out);
    collect_hook_timeouts(&d.post_start_hook_timeouts, out);
    collect_readiness_timeouts(&d.readiness_timeouts, out);
    collect_reload_detections(&d.reload_detections, out);
    collect_reload_command_timeouts(&d.reload_command_timeouts, out);
    collect_restart_backoffs(&d.restart_backoffs, out);
    collect_restart_backoff_failures(&d.restart_backoff_failures, out);
    collect_health_check_intervals(&d.health_check_intervals, out);
    collect_health_check_timeouts(&d.health_check_timeouts, out);
    collect_watchdog_timeouts(&d.watchdog_timeouts, out);
    collect_cgroup_leaks(&d.cgroup_leaks, out);
    collect_submitted_deadlines(&d.submitted_jobs, out);
    collect_internal_errors(&d.internal_errors, out);
    assert(events_view(out@) == start + lifecycle_deadline_recs(*d));
}

/// What one reaped child records, by what it was.
pub open spec fn child_reap_recs(t: SupervisorChildReapTurn) -> Seq<KmesEventView> {
    match t {
        SupervisorChildReapTurn::Supervised { dispatch, .. } => match dispatch {
            SupervisorChildReapDispatch::Runtime(d) => terminal_dispatch_recs(*d),
            SupervisorChildReapDispatch::PreStartHook(d) => pre_start_hook_terminal_recs(*d),
            SupervisorChildReapDispatch::PostStartHook(d) => post_start_hook_terminal_recs(*d),
            SupervisorChildReapDispatch::ReloadCommand(d) => reload_command_recs(d),
            SupervisorChildReapDispatch::HealthCheck(d) => health_check_terminal_recs(*d),
            SupervisorChildReapDispatch::Shutdown(d) => job_rec(d.job_event),
            SupervisorChildReapDispatch::Submitted(d) => job_rec(d.job_event),
        },
        SupervisorChildReapTurn::Untracked { .. } => Seq::empty(),
        SupervisorChildReapTurn::InternalError { dispatch, .. } => internal_error_recs(*dispatch),
    }
}

pub fn collect_child_reap_turn(t: &SupervisorChildReapTurn, out: &mut Vec<KmesEvent>)
    ensures
        events_view(final(out)@) == events_view(old(out)@) + child_reap_recs(*t),
{
    match t {
        SupervisorChildReapTurn::Supervised { dispatch, .. } => match dispatch {
            SupervisorChildReapDispatch::Runtime(d) => collect_terminal_dispatch(d, out),
            SupervisorChildReapDispatch::PreStartHook(d) => collect_pre_start_hook_terminal_dispatch(d, out),
            SupervisorChildReapDispatch::PostStartHook(d) => collect_post_start_hook_terminal_dispatch(d, out),
            SupervisorChildReapDispatch::ReloadCommand(d) => collect_reload_command(d, out),
            SupervisorChildReapDispatch::HealthCheck(d) => collect_health_check_terminal(d, out),
            SupervisorChildReapDispatch::Shutdown(d) => push_job(out, &d.job_event),
            SupervisorChildReapDispatch::Submitted(d) => push_job(out, &d.job_event),
        },
        SupervisorChildReapTurn::Untracked { .. } => {
            assert(events_view(out@) == events_view(old(out)@) + Seq::<KmesEventView>::empty());
        },
        SupervisorChildReapTurn::InternalError { dispatch, .. } => push_internal_error(out, dispatch),
    }
}

pub open spec fn child_reaps_recs(s: Seq<SupervisorChildReapTurn>) -> Seq<KmesEventView> {
    flat_map(s, |d: SupervisorChildReapTurn| child_reap_recs(d))
}

pub fn collect_child_reap_turns(ds: &Vec<SupervisorChildReapTurn>, out: &mut Vec<KmesEvent>)
    ensures
        events_view(final(out)@) == events_view(old(out)@) + child_reaps_recs(ds@),
{
    let ghost start = events_view(out@);
    let n = ds.len();
    let mut i: usize = 0;
    while i < n
        invariant
            n == ds@.len(),
            0 <= i <= n,
            events_view(out@) == start + child_reaps_recs(ds@.take(i as int)),
        decreases n - i,
    {
        let d = &ds[i];
        collect_child_reap_turn(d, out);
        proof {
            lemma_flat_map_step(ds@, |d: SupervisorChildReapTurn| child_reap_recs(d), i as int);
        }
        i += 1;
    }
    proof {
        lemma_flat_map_all(ds@, |d: SupervisorChildReapTurn| child_reap_recs(d));
    }
}


pub open spec fn pid1_signal_recs(t: SupervisorPid1SignalFdTurn) -> Seq<KmesEventView> {
    match t {
        SupervisorPid1SignalFdTurn::Shutdown(d) => match d.action {
            SupervisorShutdownSignalAction::Graceful(s) => shutdown_dispatch_recs(s),
            _ => Seq::empty(),
        },
        SupervisorPid1SignalFdTurn::Other { .. } => Seq::empty(),
    }
}

/// A shutdown signal records the starts a graceful shutdown cut short; a
/// forced one or one already in progress records nothing here.
pub fn collect_pid1_signal_turn(t: &SupervisorPid1SignalFdTurn, out: &mut Vec<KmesEvent>)
    ensures
        events_view(final(out)@) == events_view(old(out)@) + pid1_signal_recs(*t),
{
    match t {
        SupervisorPid1SignalFdTurn::Shutdown(d) => match &d.action {
            SupervisorShutdownSignalAction::Graceful(s) => collect_shutdown_dispatch(s, out),
            _ => {
                assert(events_view(out@) == events_view(old(out)@) + Seq::<KmesEventView>::empty());
            },
        },
        SupervisorPid1SignalFdTurn::Other { .. } => {
            assert(events_view(out@) == events_view(old(out)@) + Seq::<KmesEventView>::empty());
        },
    }
}

pub open spec fn power_button_recs(d: SupervisorPowerButtonDispatch) -> Seq<KmesEventView> {
    match d.action {
        SupervisorPowerButtonAction::Graceful(s) => shutdown_dispatch_recs(s),
        SupervisorPowerButtonAction::AlreadyInProgress { .. } => Seq::empty(),
    }
}

pub fn collect_power_button_dispatch(d: &SupervisorPowerButtonDispatch, out: &mut Vec<KmesEvent>)
    ensures
        events_view(final(out)@) == events_view(old(out)@) + power_button_recs(*d),
{
    match &d.action {
        SupervisorPowerButtonAction::Graceful(s) => collect_shutdown_dispatch(s, out),
        SupervisorPowerButtonAction::AlreadyInProgress { .. } => {
            assert(events_view(out@) == events_view(old(out)@) + Seq::<KmesEventView>::empty());
        },
    }
}

pub open spec fn abandoned_recs(s: Seq<SupervisorShutdownAbandonedDispatch>) -> Seq<KmesEventView> {
    flat_map(s, |d: SupervisorShutdownAbandonedDispatch| abandoned_rec(d))
}

fn collect_shutdown_abandoned(ds: &Vec<SupervisorShutdownAbandonedDispatch>, out: &mut Vec<KmesEvent>)
    ensures
        events_view(final(out)@) == events_view(old(out)@) + abandoned_recs(ds@),
{
    let ghost start = events_view(out@);
    let n = ds.len();
    let mut i: usize = 0;
    while i < n
        invariant
            n == ds@.len(),
            0 <= i <= n,
            events_view(out@) == start + abandoned_recs(ds@.take(i as int)),
        decreases n - i,
    {
        let d = &ds[i];
        push_shutdown_abandoned(out, d);
        proof {
            lemma_flat_map_step(ds@, |d: SupervisorShutdownAbandonedDispatch| abandoned_rec(d), i as int);
        }
        i += 1;
    }
    proof {
        lemma_flat_map_all(ds@, |d: SupervisorShutdownAbandonedDispatch| abandoned_rec(d));
    }
}


/// A shutdown deadline: the jobs it ended, the services it abandoned, and
/// what it did to submitted jobs.
pub open spec fn shutdown_drive_recs(d: SupervisorShutdownDriveDispatch) -> Seq<KmesEventView> {
    match d.timeout {
        Some(t) => jobs_recs(t.job_events@) + abandoned_recs(t.abandoned@) + submitted_deadlines_recs(t.submitted@),
        None => Seq::empty(),
    }
}

pub fn collect_shutdown_drive_dispatch(d: &SupervisorShutdownDriveDispatch, out: &mut Vec<KmesEvent>)
    ensures
        events_view(final(out)@) == events_view(old(out)@) + shutdown_drive_recs(*d),
{
    let ghost start = events_view(out@);
    match &d.timeout {
        Some(t) => {
            push_jobs(&t.job_events, out);
            collect_shutdown_abandoned(&t.abandoned, out);
            collect_submitted_deadlines(&t.submitted, out);
        },
        None => {},
    }
    assert(events_view(out@) == start + shutdown_drive_recs(*d));
}

pub open spec fn timer_dispatch_recs(d: SupervisorTimerDispatch) -> Seq<KmesEventView> {
    match d.action {
        SupervisorTimerAction::Start { outcome, start_dispatches } => ops_recs(outcome.events@) + starts_recs(start_dispatches@),
        SupervisorTimerAction::Skipped => Seq::empty(),
    }
}

pub fn collect_timer_dispatch(d: &SupervisorTimerDispatch, out: &mut Vec<KmesEvent>)
    ensures
        events_view(final(out)@) == events_view(old(out)@) + timer_dispatch_recs(*d),
{
    let ghost start = events_view(out@);
    match &d.action {
        SupervisorTimerAction::Start { outcome, start_dispatches } => {
            collect_on_demand_start(outcome, out);
            collect_start_dispatches(start_dispatches, out);
        },
        SupervisorTimerAction::Skipped => {},
    }
    assert(events_view(out@) == start + timer_dispatch_recs(*d));
}

} // verus!
