//! Audit records for the kernel message event stream (KMES): one per job,
//! operation and graph event a turn produced, and one for each thing an
//! operator must be able to find later.
use vstd::prelude::*;
use vstd::string::*;
use crate::seqs::{flat_map, lemma_flat_map_step, lemma_flat_map_all, opt_view};
use crate::text::{append_string};
use crate::model::job::{JobState, JobEvent};
use crate::model::operation::{OperationEventKind, OperationEvent, GraphExecutionEvent, OperationRequestOutcome, OnDemandStartDispatch};
use crate::model::dispatch::{StartExecutionDispatch, SupervisorInternalErrorDispatch};
use crate::model::stop::{SupervisorShutdownAbandonedDispatch};

verus! {

/// One audit record: what kind of event it is, the service and job it is
/// about where it is about one, and the detail that distinguishes it.
#[derive(Debug, Clone, PartialEq, Eq)]
pub struct KmesEvent {
    pub event_type: String,
    pub service: Option<String>,
    pub job_id: Option<u64>,
    pub detail: String,
}

pub struct KmesEventView {
    pub event_type: Seq<char>,
    pub service: Option<Seq<char>>,
    pub job_id: Option<u64>,
    pub detail: Seq<char>,
}

impl View for KmesEvent {
    type V = KmesEventView;

    open spec fn view(&self) -> KmesEventView {
        KmesEventView {
            event_type: self.event_type@,
            service: opt_view(self.service),
            job_id: self.job_id,
            detail: self.detail@,
        }
    }
}

pub open spec fn events_view(s: Seq<KmesEvent>) -> Seq<KmesEventView> {
    s.map_values(|e: KmesEvent| e@)
}

/// One record.
pub open spec fn rec(event_type: Seq<char>, service: Option<Seq<char>>, job_id: Option<u64>, detail: Seq<char>) -> Seq<KmesEventView> {
    seq![KmesEventView { event_type, service, job_id, detail }]
}

/// A copy of a string option.
pub fn clone_opt_string(s: &Option<String>) -> (r: Option<String>)
    ensures
        opt_view(r) == opt_view(*s),
{
    match s {
        Some(v) => Some(v.clone()),
        None => None,
    }
}

/// Append one record.
pub fn push_record(out: &mut Vec<KmesEvent>, event_type: &str, service: Option<String>, job_id: Option<u64>, detail: String)
    ensures
        events_view(final(out)@) == events_view(old(out)@) + rec(event_type@, opt_view(service), job_id, detail@),
{
    let ghost before = out@;
    let e = KmesEvent { event_type: event_type.to_owned(), service, job_id, detail };
    out.push(e);
    assert(events_view(out@) =~= events_view(before) + rec(event_type@, opt_view(service), job_id, detail@));
}

pub open spec fn job_event_type(state: JobState) -> Seq<char> {
    match state {
        JobState::Created => "job.created"@,
        JobState::Running => "job.started"@,
        JobState::Completed => "job.completed"@,
        JobState::Failed => "job.failed"@,
        JobState::Cancelled => "job.cancelled"@,
    }
}

fn job_event_type_str(state: JobState) -> (r: &'static str)
    ensures
        r@ == job_event_type(state),
{
    match state {
        JobState::Created => "job.created",
        JobState::Running => "job.started",
        JobState::Completed => "job.completed",
        JobState::Failed => "job.failed",
        JobState::Cancelled => "job.cancelled",
    }
}

pub open spec fn job_rec(e: JobEvent) -> Seq<KmesEventView> {
    rec(job_event_type(e.state), opt_view(e.service), Some(e.job_id), Seq::empty())
}

pub open spec fn opt_job_rec(e: Option<JobEvent>) -> Seq<KmesEventView> {
    match e {
        Some(e) => job_rec(e),
        None => Seq::empty(),
    }
}

pub fn push_job(out: &mut Vec<KmesEvent>, e: &JobEvent)
    ensures
        events_view(final(out)@) == events_view(old(out)@) + job_rec(*e),
{
    push_record(out, job_event_type_str(e.state), clone_opt_string(&e.service), Some(e.job_id), String::new());
}

pub fn push_opt_job(out: &mut Vec<KmesEvent>, e: &Option<JobEvent>)
    ensures
        events_view(final(out)@) == events_view(old(out)@) + opt_job_rec(*e),
{
    match e {
        Some(e) => push_job(out, e),
        None => {
            assert(events_view(out@) == events_view(old(out)@) + Seq::<KmesEventView>::empty());
        },
    }
}

pub open spec fn operation_event_type(kind: OperationEventKind) -> Seq<char> {
    match kind {
        OperationEventKind::Requested => "operation.requested"@,
        OperationEventKind::Started => "operation.started"@,
        OperationEventKind::Completed => "operation.completed"@,
    }
}

fn operation_event_type_str(kind: OperationEventKind) -> (r: &'static str)
    ensures
        r@ == operation_event_type(kind),
{
    match kind {
        OperationEventKind::Requested => "operation.requested",
        OperationEventKind::Started => "operation.started",
        OperationEventKind::Completed => "operation.completed",
    }
}

pub open spec fn op_rec(e: OperationEvent) -> Seq<KmesEventView> {
    rec(operation_event_type(e.kind), Some(e.service@), None, e.operation_type.spec_name())
}

pub open spec fn opt_op_rec(e: Option<OperationEvent>) -> Seq<KmesEventView> {
    match e {
        Some(e) => op_rec(e),
        None => Seq::empty(),
    }
}

pub fn push_operation(out: &mut Vec<KmesEvent>, e: &OperationEvent)
    ensures
        events_view(final(out)@) == events_view(old(out)@) + op_rec(*e),
{
    push_record(out, operation_event_type_str(e.kind), Some(e.service.clone()), None, String::from_str(e.operation_type.name()));
}

pub fn push_opt_operation(out: &mut Vec<KmesEvent>, e: &Option<OperationEvent>)
    ensures
        events_view(final(out)@) == events_view(old(out)@) + opt_op_rec(*e),
{
    match e {
        Some(e) => push_operation(out, e),
        None => {
            assert(events_view(out@) == events_view(old(out)@) + Seq::<KmesEventView>::empty());
        },
    }
}

pub open spec fn graph_rec(e: GraphExecutionEvent) -> Seq<KmesEventView> {
    rec("graph.execution"@, Some(e.service@), None, Seq::empty())
}

pub fn push_graph(out: &mut Vec<KmesEvent>, e: &GraphExecutionEvent)
    ensures
        events_view(final(out)@) == events_view(old(out)@) + graph_rec(*e),
{
    push_record(out, "graph.execution", Some(e.service.clone()), None, String::new());
}


pub open spec fn ops_recs(s: Seq<OperationEvent>) -> Seq<KmesEventView> {
    flat_map(s, |d: OperationEvent| op_rec(d))
}

pub fn push_operations(ds: &Vec<OperationEvent>, out: &mut Vec<KmesEvent>)
    ensures
        events_view(final(out)@) == events_view(old(out)@) + ops_recs(ds@),
{
    let ghost start = events_view(out@);
    let n = ds.len();
    let mut i: usize = 0;
    while i < n
        invariant
            n == ds@.len(),
            0 <= i <= n,
            events_view(out@) == start + ops_recs(ds@.take(i as int)),
        decreases n - i,
    {
        let d = &ds[i];
        push_operation(out, d);
        proof {
            lemma_flat_map_step(ds@, |d: OperationEvent| op_rec(d), i as int);
        }
        i += 1;
    }
    proof {
        lemma_flat_map_all(ds@, |d: OperationEvent| op_rec(d));
    }
}


pub open spec fn graphs_recs(s: Seq<GraphExecutionEvent>) -> Seq<KmesEventView> {
    flat_map(s, |d: GraphExecutionEvent| graph_rec(d))
}

pub fn push_graphs(ds: &Vec<GraphExecutionEvent>, out: &mut Vec<KmesEvent>)
    ensures
        events_view(final(out)@) == events_view(old(out)@) + graphs_recs(ds@),
{
    let ghost start = events_view(out@);
    let n = ds.len();
    let mut i: usize = 0;
    while i < n
        invariant
            n == ds@.len(),
            0 <= i <= n,
            events_view(out@) == start + graphs_recs(ds@.take(i as int)),
        decreases n - i,
    {
        let d = &ds[i];
        push_graph(out, d);
        proof {
            lemma_flat_map_step(ds@, |d: GraphExecutionEvent| graph_rec(d), i as int);
        }
        i += 1;
    }
    proof {
        lemma_flat_map_all(ds@, |d: GraphExecutionEvent| graph_rec(d));
    }
}


pub open spec fn jobs_recs(s: Seq<JobEvent>) -> Seq<KmesEventView> {
    flat_map(s, |d: JobEvent| job_rec(d))
}

pub fn push_jobs(ds: &Vec<JobEvent>, out: &mut Vec<KmesEvent>)
    ensures
        events_view(final(out)@) == events_view(old(out)@) + jobs_recs(ds@),
{
    let ghost start = events_view(out@);
    let n = ds.len();
    let mut i: usize = 0;
    while i < n
        invariant
            n == ds@.len(),
            0 <= i <= n,
            events_view(out@) == start + jobs_recs(ds@.take(i as int)),
        decreases n - i,
    {
        let d = &ds[i];
        push_job(out, d);
        proof {
            lemma_flat_map_step(ds@, |d: JobEvent| job_rec(d), i as int);
        }
        i += 1;
    }
    proof {
        lemma_flat_map_all(ds@, |d: JobEvent| job_rec(d));
    }
}


pub fn collect_operation_request_outcome(o: &OperationRequestOutcome, out: &mut Vec<KmesEvent>)
    ensures
        events_view(final(out)@) == events_view(old(out)@) + ops_recs(o.events@),
{
    push_operations(&o.events, out);
}

pub fn collect_on_demand_start(d: &OnDemandStartDispatch, out: &mut Vec<KmesEvent>)
    ensures
        events_view(final(out)@) == events_view(old(out)@) + ops_recs(d.events@),
{
    push_operations(&d.events, out);
}

/// The operation and the job of each released start.
pub open spec fn start_recs(d: StartExecutionDispatch) -> Seq<KmesEventView> {
    op_rec(d.operation_event) + job_rec(d.job_event)
}

fn collect_start_dispatch(d: &StartExecutionDispatch, out: &mut Vec<KmesEvent>)
    ensures
        events_view(final(out)@) == events_view(old(out)@) + start_recs(*d),
{
    let ghost start = events_view(out@);
    push_operation(out, &d.operation_event);
    push_job(out, &d.job_event);
    assert(events_view(out@) == start + start_recs(*d));
}

pub open spec fn starts_recs(s: Seq<StartExecutionDispatch>) -> Seq<KmesEventView> {
    flat_map(s, |d: StartExecutionDispatch| start_recs(d))
}

pub fn collect_start_dispatches(ds: &Vec<StartExecutionDispatch>, out: &mut Vec<KmesEvent>)
    ensures
        events_view(final(out)@) == events_view(old(out)@) + starts_recs(ds@),
{
    let ghost start = events_view(out@);
    let n = ds.len();
    let mut i: usize = 0;
    while i < n
        invariant
            n == ds@.len(),
            0 <= i <= n,
            events_view(out@) == start + starts_recs(ds@.take(i as int)),
        decreases n - i,
    {
        let d = &ds[i];
        collect_start_dispatch(d, out);
        proof {
            lemma_flat_map_step(ds@, |d: StartExecutionDispatch| start_recs(d), i as int);
        }
        i += 1;
    }
    proof {
        lemma_flat_map_all(ds@, |d: StartExecutionDispatch| start_recs(d));
    }
}


/// A Critical failure that forced a reboot: the service and what failed.
pub open spec fn critical_failure_rec(service: Seq<char>, trigger: Seq<char>) -> Seq<KmesEventView> {
    rec("service.critical_failure"@, Some(service), None, trigger)
}

pub fn push_critical_failure(out: &mut Vec<KmesEvent>, service: &String, trigger: &str)
    ensures
        events_view(final(out)@) == events_view(old(out)@) + critical_failure_rec(service@, trigger@),
{
    push_record(out, "service.critical_failure", Some(service.clone()), None, String::from_str(trigger));
}

/// The audit record of a contained internal error: the job it retired, the
/// service job, the operation it failed, the `service.internal_error` that
/// says what peinit could not do, then the starts its reactions released.
pub open spec fn internal_error_recs(d: SupervisorInternalErrorDispatch) -> Seq<KmesEventView> {
    opt_job_rec(d.job_event) + opt_job_rec(d.service_job_event) + opt_op_rec(d.operation_event)
        + rec("service.internal_error"@, opt_view(d.service), d.job_id, d.step@ + ": "@ + d.error@)
        + starts_recs(d.start_dispatches@)
}

pub fn push_internal_error(out: &mut Vec<KmesEvent>, d: &SupervisorInternalErrorDispatch)
    ensures
        events_view(final(out)@) == events_view(old(out)@) + internal_error_recs(*d),
{
    let ghost start = events_view(out@);
    push_opt_job(out, &d.job_event);
    push_opt_job(out, &d.service_job_event);
    push_opt_operation(out, &d.operation_event);
    let mut detail = d.step.clone();
    detail.append(": ");
    append_string(&mut detail, &d.error);
    push_record(out, "service.internal_error", clone_opt_string(&d.service), d.job_id, detail);
    collect_start_dispatches(&d.start_dispatches, out);
    assert(events_view(out@) == start + internal_error_recs(*d));
}

pub open spec fn abandoned_rec(a: SupervisorShutdownAbandonedDispatch) -> Seq<KmesEventView> {
    rec("shutdown.abandoned"@, Some(a.service@), None, a.cgroup_id@)
}

pub fn push_shutdown_abandoned(out: &mut Vec<KmesEvent>, a: &SupervisorShutdownAbandonedDispatch)
    ensures
        events_view(final(out)@) == events_view(old(out)@) + abandoned_rec(*a),
{
    push_record(out, "shutdown.abandoned", Some(a.service.clone()), None, a.cgroup_id.clone());
}

/// A contained internal error records the operation it failed: after the
/// records of its job events comes the record of its operation event, when
/// it carries one, and then the `service.internal_error` record itself.
pub proof fn law_internal_error_records_its_operation(d: SupervisorInternalErrorDispatch)
    ensures
        ({
            let r = internal_error_recs(d);
            let k = (if d.job_event is Some { 1int } else { 0int }) + (if d.service_job_event is Some { 1int } else { 0int });
            let failure = KmesEventView {
                event_type: "service.internal_error"@,
                service: opt_view(d.service),
                job_id: d.job_id,
                detail: d.step@ + ": "@ + d.error@,
            };
            match d.operation_event {
                Some(e) => {
                    &&& r[k] == (KmesEventView {
                        event_type: match e.kind {
                            OperationEventKind::Requested => "operation.requested"@,
                            OperationEventKind::Started => "operation.started"@,
                            OperationEventKind::Completed => "operation.completed"@,
                        },
                        service: Some(e.service@),
                        job_id: None,
                        detail: e.operation_type.spec_name(),
                    })
                    &&& r[k + 1] == failure
                },
                None => r[k] == failure,
            }
        }),
{
    let jobs = opt_job_rec(d.job_event) + opt_job_rec(d.service_job_event);
    let k = (if d.job_event is Some { 1int } else { 0int }) + (if d.service_job_event is Some { 1int } else { 0int });
    assert(jobs.len() == k);
    let r = internal_error_recs(d);
    let failure = rec("service.internal_error"@, opt_view(d.service), d.job_id, d.step@ + ": "@ + d.error@);
    assert(r == jobs + opt_op_rec(d.operation_event) + failure + starts_recs(d.start_dispatches@));
    match d.operation_event {
        Some(e) => {
            assert(r[k] == op_rec(e)[0]);
            assert(r[k + 1] == failure[0]);
        },
        None => {
            assert(r[k] == failure[0]);
        },
    }
}

} // verus!
