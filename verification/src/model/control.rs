//! Control commands as the supervisor applied them.
use vstd::prelude::*;
use crate::model::dispatch::{StartExecutionDispatch};
use crate::model::operation::{OnDemandStartDispatch, OperationEvent, OperationRequestOutcome};
use crate::model::service::{ServiceTableTransition, UndecodableService};
use crate::model::stop::{SupervisorSystemShutdownDispatch};
use crate::model::supervisor::{JobAccessDenied, ServiceAccessDenied, SupervisorJobsCommandDispatch, SystemAccessDenied};

verus! {

/// A lifecycle command that cleared a service synchronously.
#[derive(Debug, Clone, PartialEq, Eq)]
pub struct SynchronousClearDispatch {
    pub request: OperationRequestOutcome,
    pub started: OperationEvent,
    pub completed: OperationEvent,
    pub service_transition: ServiceTableTransition,
}

/// What a lifecycle command came to.
#[derive(Debug, Clone, PartialEq, Eq)]
pub enum LifecycleCommandOutcome {
    OperationAccepted(OperationRequestOutcome),
    OnDemandStart(OnDemandStartDispatch),
    SynchronousClear(SynchronousClearDispatch),
    Already { service: String },
    Noop { service: String },
}

/// A lifecycle command applied.
#[derive(Debug, Clone, PartialEq, Eq)]
pub struct SupervisorLifecycleDispatch {
    pub outcome: LifecycleCommandOutcome,
    /// What the command succeeded at but has to warn about.
    pub lifecycle_warnings: Vec<String>,
    pub start_dispatches: Vec<StartExecutionDispatch>,
}

/// What a configuration reload changed.
#[derive(Debug, Clone, PartialEq, Eq)]
pub struct ServiceReloadSummary {
    pub added: Vec<String>,
    pub updated: Vec<String>,
    pub restored: Vec<String>,
    pub marked_removed: Vec<String>,
    pub discarded: Vec<String>,
    pub undecodable: Vec<String>,
    /// Boot-plan members the reload could not touch before the plan drains.
    pub deferred: Vec<String>,
}

/// A configuration reload that was applied.
#[derive(Debug, Clone, PartialEq, Eq)]
pub struct ReloadConfigOutcome {
    pub summary: ServiceReloadSummary,
    pub warnings: Vec<String>,
    pub undecodable: Vec<UndecodableService>,
}

/// A configuration reload that was refused.
#[derive(Debug, Clone, PartialEq, Eq)]
pub enum ReloadConfigError {
    Validation { findings: Vec<String> },
    Registry(String),
}

/// A control command applied.
#[derive(Debug, Clone, PartialEq, Eq)]
pub enum SupervisorControlCommandDispatch {
    Shutdown(SupervisorSystemShutdownDispatch),
    Lifecycle(Box<SupervisorLifecycleDispatch>),
    ReloadConfig(Box<ReloadConfigOutcome>),
    Job(SupervisorJobsCommandDispatch),
}

/// Why a control command's body was refused.
#[derive(Debug, Clone, PartialEq, Eq)]
pub enum SupervisorControlCommandBodyError {
    SystemAccessDenied(SystemAccessDenied),
    ServiceAccessDenied(ServiceAccessDenied),
    JobAccessDenied(JobAccessDenied),
    ReloadConfig(ReloadConfigError),
    Malformed(String),
}

/// Why a shutdown request was refused.
#[derive(Debug, Clone, PartialEq, Eq)]
pub enum SupervisorSystemShutdownControlBodyError {
    AccessDenied(SystemAccessDenied),
    Malformed(String),
}

/// One frame read from a control connection, and what became of it.
#[derive(Debug, Clone, PartialEq, Eq)]
pub enum SupervisorControlFrameTurn {
    Incomplete,
    RejectedFrame,
    ShutdownAccepted { dispatch: SupervisorSystemShutdownDispatch },
    ShutdownRejected { error: SupervisorSystemShutdownControlBodyError },
    CommandAccepted {
        dispatch: Option<Box<SupervisorControlCommandDispatch>>,
        access_denials: Vec<ServiceAccessDenied>,
        job_access_denials: Vec<JobAccessDenied>,
    },
    CommandRejected { error: SupervisorControlCommandBodyError },
}

/// One control connection's turn.
#[derive(Debug, Clone, PartialEq, Eq)]
pub struct SupervisorControlConnectionTableTurn {
    pub fd: i32,
    pub frames: Vec<SupervisorControlFrameTurn>,
    pub removed: bool,
    pub active_connections: usize,
}

} // verus!
