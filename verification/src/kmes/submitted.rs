//! Audit records for submitted jobs: their lifecycle rides the ordinary job
//! records; their status, dropped output, access denials and leaked cgroups
//! have records of their own.
use vstd::prelude::*;
use vstd::string::*;
use crate::text::{append_decimal, decimal};
use crate::kmes::event::{KmesEvent, KmesEventView, events_view, rec, job_rec, push_job, push_record};
use crate::model::supervisor::{SupervisorSubmittedJobDispatch, SupervisorJobsCommandDispatch, SupervisorSubmittedDeadlineDispatch, SupervisorSubmittedNotifyDispatch, JobAccessDenied};
use crate::model::turn::{RuntimeJobsConnectionTurn};

verus! {

pub fn collect_submitted_launch(d: &SupervisorSubmittedJobDispatch, out: &mut Vec<KmesEvent>)
    ensures
        events_view(final(out)@) == events_view(old(out)@) + job_rec(d.job_event),
{
    push_job(out, &d.job_event);
}

pub open spec fn jobs_command_recs(d: SupervisorJobsCommandDispatch) -> Seq<KmesEventView> {
    match d {
        SupervisorJobsCommandDispatch::Submit { job_event } => job_rec(job_event),
        SupervisorJobsCommandDispatch::Cancelled { job_event } => job_rec(job_event),
        _ => Seq::empty(),
    }
}

pub fn collect_jobs_command_dispatch(d: &SupervisorJobsCommandDispatch, out: &mut Vec<KmesEvent>)
    ensures
        events_view(final(out)@) == events_view(old(out)@) + jobs_command_recs(*d),
{
    match d {
        SupervisorJobsCommandDispatch::Submit { job_event } => push_job(out, job_event),
        SupervisorJobsCommandDispatch::Cancelled { job_event } => push_job(out, job_event),
        _ => {
            assert(events_view(out@) == events_view(old(out)@) + Seq::<KmesEventView>::empty());
        },
    }
}

/// A job access denial: who was refused which job.
pub open spec fn job_access_denied_rec(d: JobAccessDenied) -> Seq<KmesEventView> {
    rec("access.denied"@, None, Some(d.job_id), d.caller@)
}

pub fn push_job_access_denied(out: &mut Vec<KmesEvent>, d: &JobAccessDenied)
    ensures
        events_view(final(out)@) == events_view(old(out)@) + job_access_denied_rec(*d),
{
    push_record(out, "access.denied", None, Some(d.job_id), d.caller.clone());
}

pub open spec fn jobs_connection_recs(t: RuntimeJobsConnectionTurn) -> Seq<KmesEventView> {
    match t {
        RuntimeJobsConnectionTurn::Processed { supervisor, .. } => (match supervisor.access_denial {
            Some(d) => job_access_denied_rec(d),
            None => Seq::empty(),
        }) + (match supervisor.dispatch {
            Some(d) => jobs_command_recs(d),
            None => Seq::empty(),
        }),
        RuntimeJobsConnectionTurn::Stale => Seq::empty(),
    }
}

pub fn collect_jobs_connection_turn(t: &RuntimeJobsConnectionTurn, out: &mut Vec<KmesEvent>)
    ensures
        events_view(final(out)@) == events_view(old(out)@) + jobs_connection_recs(*t),
{
    let ghost start = events_view(out@);
    match t {
        RuntimeJobsConnectionTurn::Processed { supervisor, .. } => {
            match &supervisor.access_denial {
                Some(d) => push_job_access_denied(out, d),
                None => {},
            }
            match &supervisor.dispatch {
                Some(d) => collect_jobs_command_dispatch(d, out),
                None => {},
            }
        },
        RuntimeJobsConnectionTurn::Stale => {},
    }
    assert(events_view(out@) == start + jobs_connection_recs(*t));
}

/// The service a submitted job is filed under: `jobs/<id>`.
pub open spec fn submitted_job_service(job_id: u64) -> Seq<char> {
    "jobs/"@ + decimal(job_id as nat)
}

/// Where a submitted job's cgroup lives.
pub open spec fn submitted_job_cgroup_path(job_id: u64) -> Seq<char> {
    "/sys/fs/cgroup/peinit/jobs/"@ + decimal(job_id as nat)
}

/// A deadline on a submitted job: the job abandoned with its cgroup leaked,
/// or a cleanup that found the cgroup leaked; nothing for a stop or a kill.
pub open spec fn submitted_deadline_recs(d: SupervisorSubmittedDeadlineDispatch) -> Seq<KmesEventView> {
    match d {
        SupervisorSubmittedDeadlineDispatch::Abandoned { job_event, cgroup_id } => job_rec(job_event) + rec(
            "cgroup.leaked"@,
            Some(submitted_job_service(job_event.job_id)),
            Some(job_event.job_id),
            cgroup_id@,
        ),
        SupervisorSubmittedDeadlineDispatch::CgroupCleanup { job_id, leaked } => if leaked {
            rec("cgroup.leaked"@, Some(submitted_job_service(job_id)), Some(job_id), submitted_job_cgroup_path(job_id))
        } else {
            Seq::empty()
        },
        _ => Seq::empty(),
    }
}

pub fn collect_submitted_deadline(d: &SupervisorSubmittedDeadlineDispatch, out: &mut Vec<KmesEvent>)
    ensures
        events_view(final(out)@) == events_view(old(out)@) + submitted_deadline_recs(*d),
{
    let ghost start = events_view(out@);
    match d {
        SupervisorSubmittedDeadlineDispatch::Abandoned { job_event, cgroup_id } => {
            push_job(out, job_event);
            let mut service = String::from_str("jobs/");
            append_decimal(&mut service, job_event.job_id);
            push_record(out, "cgroup.leaked", Some(service), Some(job_event.job_id), cgroup_id.clone());
        },
        SupervisorSubmittedDeadlineDispatch::CgroupCleanup { job_id, leaked } => {
            if *leaked {
                let mut service = String::from_str("jobs/");
                append_decimal(&mut service, *job_id);
                let mut path = String::from_str("/sys/fs/cgroup/peinit/jobs/");
                append_decimal(&mut path, *job_id);
                push_record(out, "cgroup.leaked", Some(service), Some(*job_id), path);
            }
        },
        _ => {},
    }
    assert(events_view(out@) == start + submitted_deadline_recs(*d));
}

pub open spec fn submitted_notify_recs(d: SupervisorSubmittedNotifyDispatch) -> Seq<KmesEventView> {
    if d.status_event_due {
        rec("job.status"@, None, Some(d.job_id), Seq::empty())
    } else {
        Seq::empty()
    }
}

/// A submitted job's status, only when one is due.
pub fn collect_submitted_notify(d: &SupervisorSubmittedNotifyDispatch, out: &mut Vec<KmesEvent>)
    ensures
        events_view(final(out)@) == events_view(old(out)@) + submitted_notify_recs(*d),
{
    if d.status_event_due {
        push_record(out, "job.status", None, Some(d.job_id), String::new());
    } else {
        assert(events_view(out@) == events_view(old(out)@) + Seq::<KmesEventView>::empty());
    }
}

/// A submitted job whose output was dropped.
pub fn collect_output_dropped(job_id: u64, out: &mut Vec<KmesEvent>)
    ensures
        events_view(final(out)@) == events_view(old(out)@) + rec("job.output_dropped"@, None, Some(job_id), Seq::empty()),
{
    push_record(out, "job.output_dropped", None, Some(job_id), String::new());
}

} // verus!
