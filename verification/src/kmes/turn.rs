//! The audit records of one turn of the runtime loop.
use vstd::prelude::*;
use vstd::string::*;
use crate::seqs::{flat_map, lemma_flat_map_step, lemma_flat_map_all};
use crate::text::{append_string, append_decimal, decimal};
use crate::kmes::event::{KmesEvent, KmesEventView, events_view, rec, job_rec, opt_job_rec, ops_recs, graphs_recs, jobs_recs, starts_recs, push_record, push_job, push_opt_job, push_operations, push_graphs, collect_start_dispatches};
use crate::kmes::job::{job_timeout_recs, pre_start_check_completion_recs, control_dispatch_recs, service_launch_recs, launch_failure_recs, post_start_hook_terminal_recs, health_check_terminal_recs, collect_job_timeout, collect_pre_start_check_completion, collect_control_dispatch, collect_launch, collect_service_launch, collect_launch_failure, collect_post_start_hook_terminal_dispatch, collect_health_check_terminal};
use crate::kmes::system::{pid1_signal_recs, child_reaps_recs, shutdown_drive_recs, control_frames_recs, lifecycle_deadline_recs, power_button_recs, timer_dispatch_recs, collect_pid1_signal_turn, collect_child_reap_turns, collect_shutdown_drive_dispatch, collect_control_connection_table_turn, collect_lifecycle_deadline_dispatch, collect_power_button_dispatch, collect_timer_dispatch};
use crate::kmes::submitted::{jobs_connection_recs, collect_jobs_connection_turn};
use crate::model::job::{JobEvent};
use crate::model::dispatch::{JobTimeoutDispatch};
use crate::model::supervisor::{SupervisorControlDispatch, SupervisorJobLaunchDispatch, SupervisorLaunchFailureDispatch, SupervisorPostStartHookTerminalDispatch, SupervisorHealthCheckLaunchFailureDispatch, SupervisorHealthCheckLaunchCancelledDispatch, SupervisorLaunchDispatch};
use crate::model::deadline::{SupervisorOperationMaintenanceTurn, SupervisorOnFailureLoopSuppressedDispatch};
use crate::model::turn::{RuntimeWorkPumpTurn, RuntimeShutdownEventTurn, RuntimeCalendarTimerTurn, RuntimeNotifyRead, RuntimeNotifyRejection, RuntimeNotifySupervisorTurn, SupervisorNotifyDispatch, AuthenticatedNotifySender, RuntimeFilesystemCheckHelperTurn, RuntimeProcessSetupTurn, SupervisorProcessSetupDispatch, RuntimePowerButtonTurn};

verus! {


pub open spec fn launches_recs(s: Seq<SupervisorJobLaunchDispatch>) -> Seq<KmesEventView> {
    flat_map(s, |d: SupervisorJobLaunchDispatch| job_rec(d.launch.job_event))
}

fn collect_launches(ds: &Vec<SupervisorJobLaunchDispatch>, out: &mut Vec<KmesEvent>)
    ensures
        events_view(final(out)@) == events_view(old(out)@) + launches_recs(ds@),
{
    let ghost start = events_view(out@);
    let n = ds.len();
    let mut i: usize = 0;
    while i < n
        invariant
            n == ds@.len(),
            0 <= i <= n,
            events_view(out@) == start + launches_recs(ds@.take(i as int)),
        decreases n - i,
    {
        let d = &ds[i];
        collect_launch(&d.launch, out);
        proof {
            lemma_flat_map_step(ds@, |d: SupervisorJobLaunchDispatch| job_rec(d.launch.job_event), i as int);
        }
        i += 1;
    }
    proof {
        lemma_flat_map_all(ds@, |d: SupervisorJobLaunchDispatch| job_rec(d.launch.job_event));
    }
}


pub open spec fn control_dispatches_recs(s: Seq<SupervisorControlDispatch>) -> Seq<KmesEventView> {
    flat_map(s, |d: SupervisorControlDispatch| control_dispatch_recs(d))
}

fn collect_control_dispatches(ds: &Vec<SupervisorControlDispatch>, out: &mut Vec<KmesEvent>)
    ensures
        events_view(final(out)@) == events_view(old(out)@) + control_dispatches_recs(ds@),
{
    let ghost start = events_view(out@);
    let n = ds.len();
    let mut i: usize = 0;
    while i < n
        invariant
            n == ds@.len(),
            0 <= i <= n,
            events_view(out@) == start + control_dispatches_recs(ds@.take(i as int)),
        decreases n - i,
    {
        let d = &ds[i];
        collect_control_dispatch(d, out);
        proof {
            lemma_flat_map_step(ds@, |d: SupervisorControlDispatch| control_dispatch_recs(d), i as int);
        }
        i += 1;
    }
    proof {
        lemma_flat_map_all(ds@, |d: SupervisorControlDispatch| control_dispatch_recs(d));
    }
}


pub open spec fn launch_failures_recs(s: Seq<SupervisorLaunchFailureDispatch>) -> Seq<KmesEventView> {
    flat_map(s, |d: SupervisorLaunchFailureDispatch| launch_failure_recs(d))
}

fn collect_launch_failures(ds: &Vec<SupervisorLaunchFailureDispatch>, out: &mut Vec<KmesEvent>)
    ensures
        events_view(final(out)@) == events_view(old(out)@) + launch_failures_recs(ds@),
{
    let ghost start = events_view(out@);
    let n = ds.len();
    let mut i: usize = 0;
    while i < n
        invariant
            n == ds@.len(),
            0 <= i <= n,
            events_view(out@) == start + launch_failures_recs(ds@.take(i as int)),
        decreases n - i,
    {
        let d = &ds[i];
        collect_launch_failure(d, out);
        proof {
            lemma_flat_map_step(ds@, |d: SupervisorLaunchFailureDispatch| launch_failure_recs(d), i as int);
        }
        i += 1;
    }
    proof {
        lemma_flat_map_all(ds@, |d: SupervisorLaunchFailureDispatch| launch_failure_recs(d));
    }
}


pub open spec fn post_hook_failures_recs(s: Seq<SupervisorPostStartHookTerminalDispatch>) -> Seq<KmesEventView> {
    flat_map(s, |d: SupervisorPostStartHookTerminalDispatch| post_start_hook_terminal_recs(d))
}

fn collect_post_hook_launch_failures(ds: &Vec<SupervisorPostStartHookTerminalDispatch>, out: &mut Vec<KmesEvent>)
    ensures
        events_view(final(out)@) == events_view(old(out)@) + post_hook_failures_recs(ds@),
{
    let ghost start = events_view(out@);
    let n = ds.len();
    let mut i: usize = 0;
    while i < n
        invariant
            n == ds@.len(),
            0 <= i <= n,
            events_view(out@) == start + post_hook_failures_recs(ds@.take(i as int)),
        decreases n - i,
    {
        let d = &ds[i];
        collect_post_start_hook_terminal_dispatch(d, out);
        proof {
            lemma_flat_map_step(ds@, |d: SupervisorPostStartHookTerminalDispatch| post_start_hook_terminal_recs(d), i as int);
        }
        i += 1;
    }
    proof {
        lemma_flat_map_all(ds@, |d: SupervisorPostStartHookTerminalDispatch| post_start_hook_terminal_recs(d));
    }
}


pub open spec fn health_check_failures_recs(s: Seq<SupervisorHealthCheckLaunchFailureDispatch>) -> Seq<KmesEventView> {
    flat_map(s, |d: SupervisorHealthCheckLaunchFailureDispatch| health_check_terminal_recs(d.terminal))
}

fn collect_health_check_launch_failures(ds: &Vec<SupervisorHealthCheckLaunchFailureDispatch>, out: &mut Vec<KmesEvent>)
    ensures
        events_view(final(out)@) == events_view(old(out)@) + health_check_failures_recs(ds@),
{
    let ghost start = events_view(out@);
    let n = ds.len();
    let mut i: usize = 0;
    while i < n
        invariant
            n == ds@.len(),
            0 <= i <= n,
            events_view(out@) == start + health_check_failures_recs(ds@.take(i as int)),
        decreases n - i,
    {
        let d = &ds[i];
        collect_health_check_terminal(&d.terminal, out);
        proof {
            lemma_flat_map_step(ds@, |d: SupervisorHealthCheckLaunchFailureDispatch| health_check_terminal_recs(d.terminal), i as int);
        }
        i += 1;
    }
    proof {
        lemma_flat_map_all(ds@, |d: SupervisorHealthCheckLaunchFailureDispatch| health_check_terminal_recs(d.terminal));
    }
}


pub open spec fn health_check_cancellations_recs(s: Seq<SupervisorHealthCheckLaunchCancelledDispatch>) -> Seq<KmesEventView> {
    flat_map(s, |d: SupervisorHealthCheckLaunchCancelledDispatch| job_rec(d.job_event))
}

fn collect_health_check_launch_cancellations(ds: &Vec<SupervisorHealthCheckLaunchCancelledDispatch>, out: &mut Vec<KmesEvent>)
    ensures
        events_view(final(out)@) == events_view(old(out)@) + health_check_cancellations_recs(ds@),
{
    let ghost start = events_view(out@);
    let n = ds.len();
    let mut i: usize = 0;
    while i < n
        invariant
            n == ds@.len(),
            0 <= i <= n,
            events_view(out@) == start + health_check_cancellations_recs(ds@.take(i as int)),
        decreases n - i,
    {
        let d = &ds[i];
        push_job(out, &d.job_event);
        proof {
            lemma_flat_map_step(ds@, |d: SupervisorHealthCheckLaunchCancelledDispatch| job_rec(d.job_event), i as int);
        }
        i += 1;
    }
    proof {
        lemma_flat_map_all(ds@, |d: SupervisorHealthCheckLaunchCancelledDispatch| job_rec(d.job_event));
    }
}


pub open spec fn service_launches_recs(s: Seq<SupervisorLaunchDispatch>) -> Seq<KmesEventView> {
    flat_map(s, |d: SupervisorLaunchDispatch| service_launch_recs(d))
}

fn collect_service_launches(ds: &Vec<SupervisorLaunchDispatch>, out: &mut Vec<KmesEvent>)
    ensures
        events_view(final(out)@) == events_view(old(out)@) + service_launches_recs(ds@),
{
    let ghost start = events_view(out@);
    let n = ds.len();
    let mut i: usize = 0;
    while i < n
        invariant
            n == ds@.len(),
            0 <= i <= n,
            events_view(out@) == start + service_launches_recs(ds@.take(i as int)),
        decreases n - i,
    {
        let d = &ds[i];
        collect_service_launch(d, out);
        proof {
            lemma_flat_map_step(ds@, |d: SupervisorLaunchDispatch| service_launch_recs(d), i as int);
        }
        i += 1;
    }
    proof {
        lemma_flat_map_all(ds@, |d: SupervisorLaunchDispatch| service_launch_recs(d));
    }
}


/// Everything the drained work records, in the order the pump drained it.
pub open spec fn work_pump_recs(t: RuntimeWorkPumpTurn) -> Seq<KmesEventView> {
    control_dispatches_recs(t.control_operations@) + launches_recs(t.start_hook_launches@)
        + launch_failures_recs(t.start_hook_launch_failures@) + launches_recs(t.post_hook_launches@)
        + post_hook_failures_recs(t.post_hook_launch_failures@) + launches_recs(t.control_launches@)
        + launches_recs(t.health_check_launches@) + health_check_failures_recs(t.health_check_launch_failures@)
        + health_check_cancellations_recs(t.health_check_launch_cancellations@)
        + service_launches_recs(t.service_launches@) + launch_failures_recs(t.service_launch_failures@)
}

pub fn collect_runtime_work_pump_kmes_events(t: &RuntimeWorkPumpTurn, out: &mut Vec<KmesEvent>)
    ensures
        events_view(final(out)@) == events_view(old(out)@) + work_pump_recs(*t),
{
    let ghost start = events_view(out@);
    collect_control_dispatches(&t.control_operations, out);
    collect_launches(&t.start_hook_launches, out);
    collect_launch_failures(&t.start_hook_launch_failures, out);
    collect_launches(&t.post_hook_launches, out);
    collect_post_hook_launch_failures(&t.post_hook_launch_failures, out);
    collect_launches(&t.control_launches, out);
    collect_launches(&t.health_check_launches, out);
    collect_health_check_launch_failures(&t.health_check_launch_failures, out);
    collect_health_check_launch_cancellations(&t.health_check_launch_cancellations, out);
    collect_service_launches(&t.service_launches, out);
    collect_launch_failures(&t.service_launch_failures, out);
    assert(events_view(out@) == start + work_pump_recs(*t));
}

pub open spec fn loop_suppressed_rec(d: SupervisorOnFailureLoopSuppressedDispatch) -> Seq<KmesEventView> {
    rec("on_failure.loop_suppressed"@, Some(d.failed_service@), None, d.attempted_handler@)
}

fn push_loop_suppressed(out: &mut Vec<KmesEvent>, d: &SupervisorOnFailureLoopSuppressedDispatch)
    ensures
        events_view(final(out)@) == events_view(old(out)@) + loop_suppressed_rec(*d),
{
    push_record(out, "on_failure.loop_suppressed", Some(d.failed_service.clone()), None, d.attempted_handler.clone());
}

pub open spec fn job_timeouts_recs(s: Seq<JobTimeoutDispatch>) -> Seq<KmesEventView> {
    flat_map(s, |d: JobTimeoutDispatch| job_timeout_recs(d))
}

fn collect_job_timeouts(ds: &Vec<JobTimeoutDispatch>, out: &mut Vec<KmesEvent>)
    ensures
        events_view(final(out)@) == events_view(old(out)@) + job_timeouts_recs(ds@),
{
    let ghost start = events_view(out@);
    let n = ds.len();
    let mut i: usize = 0;
    while i < n
        invariant
            n == ds@.len(),
            0 <= i <= n,
            events_view(out@) == start + job_timeouts_recs(ds@.take(i as int)),
        decreases n - i,
    {
        let d = &ds[i];
        collect_job_timeout(d, out);
        proof {
            lemma_flat_map_step(ds@, |d: JobTimeoutDispatch| job_timeout_recs(d), i as int);
        }
        i += 1;
    }
    proof {
        lemma_flat_map_all(ds@, |d: JobTimeoutDispatch| job_timeout_recs(d));
    }
}


pub open spec fn loop_suppressions_recs(s: Seq<SupervisorOnFailureLoopSuppressedDispatch>) -> Seq<KmesEventView> {
    flat_map(s, |d: SupervisorOnFailureLoopSuppressedDispatch| loop_suppressed_rec(d))
}

fn collect_loop_suppressions(ds: &Vec<SupervisorOnFailureLoopSuppressedDispatch>, out: &mut Vec<KmesEvent>)
    ensures
        events_view(final(out)@) == events_view(old(out)@) + loop_suppressions_recs(ds@),
{
    let ghost start = events_view(out@);
    let n = ds.len();
    let mut i: usize = 0;
    while i < n
        invariant
            n == ds@.len(),
            0 <= i <= n,
            events_view(out@) == start + loop_suppressions_recs(ds@.take(i as int)),
        decreases n - i,
    {
        let d = &ds[i];
        push_loop_suppressed(out, d);
        proof {
            lemma_flat_map_step(ds@, |d: SupervisorOnFailureLoopSuppressedDispatch| loop_suppressed_rec(d), i as int);
        }
        i += 1;
    }
    proof {
        lemma_flat_map_all(ds@, |d: SupervisorOnFailureLoopSuppressedDispatch| loop_suppressed_rec(d));
    }
}


/// What operation maintenance records: operations that timed out, service
/// mains that never started, graph events, relationships it refused to
/// follow, and the starts it released.
pub open spec fn maintenance_recs(t: SupervisorOperationMaintenanceTurn) -> Seq<KmesEventView> {
    ops_recs(t.operation_timeouts@) + job_timeouts_recs(t.service_main_start_timeouts@) + graphs_recs(t.graph_events@)
        + loop_suppressions_recs(t.relationship_audit_events@) + starts_recs(t.start_dispatches@)
}

pub fn collect_operation_maintenance_turn_kmes_events(t: &SupervisorOperationMaintenanceTurn, out: &mut Vec<KmesEvent>)
    ensures
        events_view(final(out)@) == events_view(old(out)@) + maintenance_recs(*t),
{
    let ghost start = events_view(out@);
    push_operations(&t.operation_timeouts, out);
    collect_job_timeouts(&t.service_main_start_timeouts, out);
    push_graphs(&t.graph_events, out);
    collect_loop_suppressions(&t.relationship_audit_events, out);
    collect_start_dispatches(&t.start_dispatches, out);
    assert(events_view(out@) == start + maintenance_recs(*t));
}

pub open spec fn notify_applied_rec(sender: AuthenticatedNotifySender, field: String) -> Seq<KmesEventView> {
    rec("notify.applied"@, Some(sender.service@), Some(sender.job_id), field@)
}

pub open spec fn fd_store_rejection_rec(sender: AuthenticatedNotifySender, name: String) -> Seq<KmesEventView> {
    rec("notify.fd_store_rejected"@, Some(sender.service@), Some(sender.job_id), name@)
}

pub open spec fn applied_fields_recs(sender: AuthenticatedNotifySender, fields: Seq<String>) -> Seq<KmesEventView> {
    flat_map(fields, |f: String| notify_applied_rec(sender, f))
}

pub open spec fn fd_store_rejections_recs(sender: AuthenticatedNotifySender, names: Seq<String>) -> Seq<KmesEventView> {
    flat_map(names, |f: String| fd_store_rejection_rec(sender, f))
}

fn collect_applied_fields(sender: &AuthenticatedNotifySender, fields: &Vec<String>, out: &mut Vec<KmesEvent>)
    ensures
        events_view(final(out)@) == events_view(old(out)@) + applied_fields_recs(*sender, fields@),
{
    let ghost start = events_view(out@);
    let n = fields.len();
    let mut i: usize = 0;
    while i < n
        invariant
            n == fields@.len(),
            0 <= i <= n,
            events_view(out@) == start + applied_fields_recs(*sender, fields@.take(i as int)),
        decreases n - i,
    {
        push_record(out, "notify.applied", Some(sender.service.clone()), Some(sender.job_id), fields[i].clone());
        proof {
            lemma_flat_map_step(fields@, |f: String| notify_applied_rec(*sender, f), i as int);
        }
        i += 1;
    }
    proof {
        lemma_flat_map_all(fields@, |f: String| notify_applied_rec(*sender, f));
    }
}

fn collect_fd_store_rejections(sender: &AuthenticatedNotifySender, names: &Vec<String>, out: &mut Vec<KmesEvent>)
    ensures
        events_view(final(out)@) == events_view(old(out)@) + fd_store_rejections_recs(*sender, names@),
{
    let ghost start = events_view(out@);
    let n = names.len();
    let mut i: usize = 0;
    while i < n
        invariant
            n == names@.len(),
            0 <= i <= n,
            events_view(out@) == start + fd_store_rejections_recs(*sender, names@.take(i as int)),
        decreases n - i,
    {
        push_record(out, "notify.fd_store_rejected", Some(sender.service.clone()), Some(sender.job_id), names[i].clone());
        proof {
            lemma_flat_map_step(names@, |f: String| fd_store_rejection_rec(*sender, f), i as int);
        }
        i += 1;
    }
    proof {
        lemma_flat_map_all(names@, |f: String| fd_store_rejection_rec(*sender, f));
    }
}

/// A notify message applied: each field it applied, the operations and
/// graph events it completed, the post-start hook it created, the file
/// descriptors the store refused, and the starts it released.
pub open spec fn notify_dispatch_recs(d: SupervisorNotifyDispatch) -> Seq<KmesEventView> {
    applied_fields_recs(d.notify.sender, d.notify.applied_fields@) + ops_recs(d.notify.operation_events@)
        + graphs_recs(d.notify.graph_events@) + opt_job_rec(d.notify.post_start_hook)
        + fd_store_rejections_recs(d.notify.sender, d.fd_store_rejections@) + starts_recs(d.start_dispatches@)
}

fn collect_notify_dispatch(d: &SupervisorNotifyDispatch, out: &mut Vec<KmesEvent>)
    ensures
        events_view(final(out)@) == events_view(old(out)@) + notify_dispatch_recs(*d),
{
    let ghost start = events_view(out@);
    collect_applied_fields(&d.notify.sender, &d.notify.applied_fields, out);
    push_operations(&d.notify.operation_events, out);
    push_graphs(&d.notify.graph_events, out);
    push_opt_job(out, &d.notify.post_start_hook);
    collect_fd_store_rejections(&d.notify.sender, &d.fd_store_rejections, out);
    collect_start_dispatches(&d.start_dispatches, out);
    assert(events_view(out@) == start + notify_dispatch_recs(*d));
}

/// Why a notify message was refused, in one line.
pub open spec fn notify_rejection_reason_text(r: RuntimeNotifyRejection) -> Seq<char> {
    match r {
        RuntimeNotifyRejection::Parse { error, .. } => "parse: "@ + error@,
        RuntimeNotifyRejection::Apply { error, .. } => "apply: "@ + error@,
        RuntimeNotifyRejection::Shutdown(error) => "shutdown: "@ + error@,
        RuntimeNotifyRejection::Truncated { payload, control } => "truncated: payload="@ + decimal(payload as nat)
            + " control="@ + decimal(control as nat),
    }
}

pub fn notify_rejection_reason(r: &RuntimeNotifyRejection) -> (s: String)
    ensures
        s@ == notify_rejection_reason_text(*r),
{
    match r {
        RuntimeNotifyRejection::Parse { error, .. } => {
            let mut s = String::from_str("parse: ");
            append_string(&mut s, error);
            s
        },
        RuntimeNotifyRejection::Apply { error, .. } => {
            let mut s = String::from_str("apply: ");
            append_string(&mut s, error);
            s
        },
        RuntimeNotifyRejection::Shutdown(error) => {
            let mut s = String::from_str("shutdown: ");
            append_string(&mut s, error);
            s
        },
        RuntimeNotifyRejection::Truncated { payload, control } => {
            let mut s = String::from_str("truncated: payload=");
            append_decimal(&mut s, *payload);
            s.append(" control=");
            append_decimal(&mut s, *control);
            s
        },
    }
}

/// The service and job a refused message was attributed to, where it was.
pub open spec fn notify_rejection_attribution(r: RuntimeNotifyRejection) -> Option<AuthenticatedNotifySender> {
    match r {
        RuntimeNotifyRejection::Parse { attribution, .. } | RuntimeNotifyRejection::Apply { attribution, .. } => attribution,
        _ => None,
    }
}

/// The pid of the sender of a message that was read.
pub open spec fn notify_sender_pid_of(read: RuntimeNotifyRead) -> Option<u32> {
    match read {
        RuntimeNotifyRead::Datagram { sender_pid } => Some(sender_pid),
        RuntimeNotifyRead::WouldBlock => None,
    }
}

pub fn notify_sender_pid(read: &RuntimeNotifyRead) -> (r: Option<u32>)
    ensures
        r == notify_sender_pid_of(*read),
{
    match read {
        RuntimeNotifyRead::Datagram { sender_pid } => Some(*sender_pid),
        RuntimeNotifyRead::WouldBlock => None,
    }
}

/// A refused message: attributed where it could be, with the sender's pid
/// and the reason.
pub open spec fn notify_rejection_rec(read: RuntimeNotifyRead, r: RuntimeNotifyRejection) -> Seq<KmesEventView> {
    let who = notify_rejection_attribution(r);
    rec(
        "notify.rejected"@,
        match who {
            Some(s) => Some(s.service@),
            None => None,
        },
        match who {
            Some(s) => Some(s.job_id),
            None => None,
        },
        (match notify_sender_pid_of(read) {
            Some(pid) => "pid "@ + decimal(pid as nat) + ": "@,
            None => Seq::empty(),
        }) + notify_rejection_reason_text(r),
    )
}

pub open spec fn notify_supervisor_recs(read: RuntimeNotifyRead, t: RuntimeNotifySupervisorTurn) -> Seq<KmesEventView> {
    match t {
        RuntimeNotifySupervisorTurn::Applied(d) => notify_dispatch_recs(*d),
        RuntimeNotifySupervisorTurn::Rejected(r) => notify_rejection_rec(read, r),
    }
}

fn collect_notify_supervisor_turn(read: &RuntimeNotifyRead, t: &RuntimeNotifySupervisorTurn, out: &mut Vec<KmesEvent>)
    ensures
        events_view(final(out)@) == events_view(old(out)@) + notify_supervisor_recs(*read, *t),
{
    match t {
        RuntimeNotifySupervisorTurn::Applied(d) => collect_notify_dispatch(d, out),
        RuntimeNotifySupervisorTurn::Rejected(r) => {
            let mut detail = String::new();
            match notify_sender_pid(read) {
                Some(pid) => {
                    detail.append("pid ");
                    append_decimal(&mut detail, pid as u64);
                    detail.append(": ");
                },
                None => {},
            }
            let reason = notify_rejection_reason(r);
            append_string(&mut detail, &reason);
            let (service, job_id) = match r {
                RuntimeNotifyRejection::Parse { attribution, .. } | RuntimeNotifyRejection::Apply { attribution, .. } => {
                    match attribution {
                        Some(s) => (Some(s.service.clone()), Some(s.job_id)),
                        None => (None, None),
                    }
                },
                _ => (None, None),
            };
            push_record(out, "notify.rejected", service, job_id, detail);
        },
    }
}

pub open spec fn filesystem_check_recs(t: RuntimeFilesystemCheckHelperTurn) -> Seq<KmesEventView> {
    match t {
        RuntimeFilesystemCheckHelperTurn::Completed { completion }
        | RuntimeFilesystemCheckHelperTurn::ReadFailedClosed { completion, .. } => pre_start_check_completion_recs(
            completion.completion,
        ) + starts_recs(completion.start_dispatches@),
        _ => Seq::empty(),
    }
}

fn collect_filesystem_check_helper_turn(t: &RuntimeFilesystemCheckHelperTurn, out: &mut Vec<KmesEvent>)
    ensures
        events_view(final(out)@) == events_view(old(out)@) + filesystem_check_recs(*t),
{
    let ghost start = events_view(out@);
    match t {
        RuntimeFilesystemCheckHelperTurn::Completed { completion }
        | RuntimeFilesystemCheckHelperTurn::ReadFailedClosed { completion, .. } => {
            collect_pre_start_check_completion(&completion.completion, out);
            collect_start_dispatches(&completion.start_dispatches, out);
        },
        _ => {},
    }
    assert(events_view(out@) == start + filesystem_check_recs(*t));
}

pub open spec fn process_setup_recs(t: RuntimeProcessSetupTurn) -> Seq<KmesEventView> {
    match t {
        RuntimeProcessSetupTurn::Completed { supervisor } => match *supervisor {
            SupervisorProcessSetupDispatch::ServiceMainLaunched(d) => service_launch_recs(d),
            SupervisorProcessSetupDispatch::ServiceMainFailed(d) => launch_failure_recs(d),
            SupervisorProcessSetupDispatch::StartHookLaunched(d) => job_rec(d.launch.job_event),
            SupervisorProcessSetupDispatch::StartHookFailed(d) => launch_failure_recs(d),
            SupervisorProcessSetupDispatch::PostHookLaunched(d) => job_rec(d.launch.job_event),
            SupervisorProcessSetupDispatch::PostHookFailed(d) => post_start_hook_terminal_recs(d),
            SupervisorProcessSetupDispatch::ControlLaunched(d) => job_rec(d.launch.job_event),
            SupervisorProcessSetupDispatch::HealthCheckLaunched(d) => job_rec(d.launch.job_event),
            SupervisorProcessSetupDispatch::HealthCheckFailed(d) => health_check_terminal_recs(d.terminal),
            _ => Seq::empty(),
        },
        RuntimeProcessSetupTurn::WouldBlock => Seq::empty(),
    }
}

fn collect_process_setup_turn(t: &RuntimeProcessSetupTurn, out: &mut Vec<KmesEvent>)
    ensures
        events_view(final(out)@) == events_view(old(out)@) + process_setup_recs(*t),
{
    let ghost start = events_view(out@);
    match t {
        RuntimeProcessSetupTurn::Completed { supervisor } => match &**supervisor {
            SupervisorProcessSetupDispatch::ServiceMainLaunched(d) => collect_service_launch(d, out),
            SupervisorProcessSetupDispatch::ServiceMainFailed(d) => collect_launch_failure(d, out),
            SupervisorProcessSetupDispatch::StartHookLaunched(d) => collect_launch(&d.launch, out),
            SupervisorProcessSetupDispatch::StartHookFailed(d) => collect_launch_failure(d, out),
            SupervisorProcessSetupDispatch::PostHookLaunched(d) => collect_launch(&d.launch, out),
            SupervisorProcessSetupDispatch::PostHookFailed(d) => collect_post_start_hook_terminal_dispatch(d, out),
            SupervisorProcessSetupDispatch::ControlLaunched(d) => collect_launch(&d.launch, out),
            SupervisorProcessSetupDispatch::HealthCheckLaunched(d) => collect_launch(&d.launch, out),
            SupervisorProcessSetupDispatch::HealthCheckFailed(d) => collect_health_check_terminal(&d.terminal, out),
            _ => {},
        },
        RuntimeProcessSetupTurn::WouldBlock => {},
    }
    assert(events_view(out@) == start + process_setup_recs(*t));
}

pub open spec fn calendar_timer_recs(t: RuntimeCalendarTimerTurn) -> Seq<KmesEventView> {
    match t.supervisor {
        Some(d) => timer_dispatch_recs(*d),
        None => Seq::empty(),
    }
}

pub fn collect_runtime_calendar_timer_kmes_events(t: &RuntimeCalendarTimerTurn, out: &mut Vec<KmesEvent>)
    ensures
        events_view(final(out)@) == events_view(old(out)@) + calendar_timer_recs(*t),
{
    match &t.supervisor {
        Some(d) => collect_timer_dispatch(d, out),
        None => {
            assert(events_view(out@) == events_view(old(out)@) + Seq::<KmesEventView>::empty());
        },
    }
}

/// What one event source's turn records.
pub open spec fn event_turn_recs(t: RuntimeShutdownEventTurn) -> Seq<KmesEventView> {
    match t {
        RuntimeShutdownEventTurn::Pid1Signal { supervisor, child_reaps, drive } => pid1_signal_recs(supervisor)
            + child_reaps_recs(child_reaps@) + (match drive {
            Some(d) => shutdown_drive_recs(*d),
            None => Seq::empty(),
        }),
        RuntimeShutdownEventTurn::ControlConnection { supervisor, .. } => control_frames_recs(supervisor.frames@),
        RuntimeShutdownEventTurn::ShutdownDeadlineTimer { drive: Some(d) } => shutdown_drive_recs(*d),
        RuntimeShutdownEventTurn::LifecycleDeadlineTimer { drive: Some(d) } => lifecycle_deadline_recs(*d),
        RuntimeShutdownEventTurn::Notify { read, supervisor: Some(s) } => notify_supervisor_recs(read, s),
        RuntimeShutdownEventTurn::CalendarTimer { turn, .. } => calendar_timer_recs(turn),
        RuntimeShutdownEventTurn::FilesystemCheckHelper { turn }
        | RuntimeShutdownEventTurn::FilesystemCheckHelperExit { turn } => filesystem_check_recs(turn),
        RuntimeShutdownEventTurn::ProcessSetup { turn } => process_setup_recs(turn),
        RuntimeShutdownEventTurn::PowerButton { turn: RuntimePowerButtonTurn::Shutdown { supervisor }, .. } => power_button_recs(
            supervisor,
        ),
        RuntimeShutdownEventTurn::DeferredChildReaps { child_reaps, .. } => child_reaps_recs(child_reaps@),
        RuntimeShutdownEventTurn::JobsConnection { turn, .. } => jobs_connection_recs(turn),
        _ => Seq::empty(),
    }
}

pub fn collect_runtime_shutdown_turn_kmes_events(t: &RuntimeShutdownEventTurn, out: &mut Vec<KmesEvent>)
    ensures
        events_view(final(out)@) == events_view(old(out)@) + event_turn_recs(*t),
{
    let ghost start = events_view(out@);
    match t {
        RuntimeShutdownEventTurn::Pid1Signal { supervisor, child_reaps, drive } => {
            collect_pid1_signal_turn(supervisor, out);
            collect_child_reap_turns(child_reaps, out);
            match drive {
                Some(d) => collect_shutdown_drive_dispatch(d, out),
                None => {},
            }
        },
        RuntimeShutdownEventTurn::ControlConnection { supervisor, .. } => collect_control_connection_table_turn(supervisor, out),
        RuntimeShutdownEventTurn::ShutdownDeadlineTimer { drive: Some(d) } => collect_shutdown_drive_dispatch(d, out),
        RuntimeShutdownEventTurn::LifecycleDeadlineTimer { drive: Some(d) } => collect_lifecycle_deadline_dispatch(d, out),
        RuntimeShutdownEventTurn::Notify { read, supervisor: Some(s) } => collect_notify_supervisor_turn(read, s, out),
        RuntimeShutdownEventTurn::CalendarTimer { turn, .. } => collect_runtime_calendar_timer_kmes_events(turn, out),
        RuntimeShutdownEventTurn::FilesystemCheckHelper { turn }
        | RuntimeShutdownEventTurn::FilesystemCheckHelperExit { turn } => collect_filesystem_check_helper_turn(turn, out),
        RuntimeShutdownEventTurn::ProcessSetup { turn } => collect_process_setup_turn(turn, out),
        RuntimeShutdownEventTurn::PowerButton { turn: RuntimePowerButtonTurn::Shutdown { supervisor }, .. } => collect_power_button_dispatch(
            supervisor,
            out,
        ),
        RuntimeShutdownEventTurn::DeferredChildReaps { child_reaps, .. } => collect_child_reap_turns(child_reaps, out),
        RuntimeShutdownEventTurn::JobsConnection { turn, .. } => collect_jobs_connection_turn(turn, out),
        _ => {},
    }
    assert(events_view(out@) == start + event_turn_recs(*t));
}

pub open spec fn event_turns_recs(s: Seq<RuntimeShutdownEventTurn>) -> Seq<KmesEventView> {
    flat_map(s, |d: RuntimeShutdownEventTurn| event_turn_recs(d))
}

fn collect_event_turns(ds: &Vec<RuntimeShutdownEventTurn>, out: &mut Vec<KmesEvent>)
    ensures
        events_view(final(out)@) == events_view(old(out)@) + event_turns_recs(ds@),
{
    let ghost start = events_view(out@);
    let n = ds.len();
    let mut i: usize = 0;
    while i < n
        invariant
            n == ds@.len(),
            0 <= i <= n,
            events_view(out@) == start + event_turns_recs(ds@.take(i as int)),
        decreases n - i,
    {
        let d = &ds[i];
        collect_runtime_shutdown_turn_kmes_events(d, out);
        proof {
            lemma_flat_map_step(ds@, |d: RuntimeShutdownEventTurn| event_turn_recs(d), i as int);
        }
        i += 1;
    }
    proof {
        lemma_flat_map_all(ds@, |d: RuntimeShutdownEventTurn| event_turn_recs(d));
    }
}


pub open spec fn calendar_turns_recs(s: Seq<(i32, RuntimeCalendarTimerTurn)>) -> Seq<KmesEventView> {
    flat_map(s, |d: (i32, RuntimeCalendarTimerTurn)| calendar_timer_recs(d.1))
}

fn collect_calendar_turns(ds: &Vec<(i32, RuntimeCalendarTimerTurn)>, out: &mut Vec<KmesEvent>)
    ensures
        events_view(final(out)@) == events_view(old(out)@) + calendar_turns_recs(ds@),
{
    let ghost start = events_view(out@);
    let n = ds.len();
    let mut i: usize = 0;
    while i < n
        invariant
            n == ds@.len(),
            0 <= i <= n,
            events_view(out@) == start + calendar_turns_recs(ds@.take(i as int)),
        decreases n - i,
    {
        let d = &ds[i];
        collect_runtime_calendar_timer_kmes_events(&d.1, out);
        proof {
            lemma_flat_map_step(ds@, |d: (i32, RuntimeCalendarTimerTurn)| calendar_timer_recs(d.1), i as int);
        }
        i += 1;
    }
    proof {
        lemma_flat_map_all(ds@, |d: (i32, RuntimeCalendarTimerTurn)| calendar_timer_recs(d.1));
    }
}


/// Everything a loop turn records, phase by phase: the work before the wait,
/// maintenance before the wait, each event source's turn, the work after,
/// maintenance after the sources, then the calendar timers.
pub open spec fn runtime_loop_recs(
    pre_work: RuntimeWorkPumpTurn,
    maintenance_before_wait: SupervisorOperationMaintenanceTurn,
    event_turns: Seq<RuntimeShutdownEventTurn>,
    post_work: RuntimeWorkPumpTurn,
    maintenance_after_sources: SupervisorOperationMaintenanceTurn,
    calendar_turns: Seq<(i32, RuntimeCalendarTimerTurn)>,
) -> Seq<KmesEventView> {
    work_pump_recs(pre_work) + maintenance_recs(maintenance_before_wait) + event_turns_recs(event_turns)
        + work_pump_recs(post_work) + maintenance_recs(maintenance_after_sources) + calendar_turns_recs(calendar_turns)
}

pub fn collect_runtime_loop_kmes_events(
    pre_work: &RuntimeWorkPumpTurn,
    maintenance_before_wait: &SupervisorOperationMaintenanceTurn,
    event_turns: &Vec<RuntimeShutdownEventTurn>,
    post_work: &RuntimeWorkPumpTurn,
    maintenance_after_sources: &SupervisorOperationMaintenanceTurn,
    calendar_turns: &Vec<(i32, RuntimeCalendarTimerTurn)>,
    out: &mut Vec<KmesEvent>,
)
    ensures
        events_view(final(out)@) == events_view(old(out)@) + runtime_loop_recs(
            *pre_work,
            *maintenance_before_wait,
            event_turns@,
            *post_work,
            *maintenance_after_sources,
            calendar_turns@,
        ),
{
    let ghost start = events_view(out@);
    collect_runtime_work_pump_kmes_events(pre_work, out);
    collect_operation_maintenance_turn_kmes_events(maintenance_before_wait, out);
    collect_event_turns(event_turns, out);
    collect_runtime_work_pump_kmes_events(post_work, out);
    collect_operation_maintenance_turn_kmes_events(maintenance_after_sources, out);
    collect_calendar_turns(calendar_turns, out);
    assert(events_view(out@) == start + runtime_loop_recs(
        *pre_work,
        *maintenance_before_wait,
        event_turns@,
        *post_work,
        *maintenance_after_sources,
        calendar_turns@,
    ));
}

} // verus!
