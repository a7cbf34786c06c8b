//! Services as the runtime layer sees them: their states, why they changed,
//! and the transitions the supervisor reports.
use vstd::prelude::*;

verus! {

/// Where a service is in its lifecycle.
#[derive(Debug, Clone, Copy, PartialEq, Eq)]
pub enum ServiceState {
    Inactive,
    Starting,
    Active,
    Reloading,
    Stopping,
    Backoff,
    Failed,
    Skipped,
    Abandoned,
    Completed,
}

impl ServiceState {
    /// The variant's name, as `Debug` prints it.
    pub open spec fn spec_name(self) -> Seq<char> {
        match self {
            ServiceState::Inactive => "Inactive"@,
            ServiceState::Starting => "Starting"@,
            ServiceState::Active => "Active"@,
            ServiceState::Reloading => "Reloading"@,
            ServiceState::Stopping => "Stopping"@,
            ServiceState::Backoff => "Backoff"@,
            ServiceState::Failed => "Failed"@,
            ServiceState::Skipped => "Skipped"@,
            ServiceState::Abandoned => "Abandoned"@,
            ServiceState::Completed => "Completed"@,
        }
    }

    pub fn name(&self) -> (r: &'static str)
        ensures
            r@ == self.spec_name(),
    {
        match self {
            ServiceState::Inactive => "Inactive",
            ServiceState::Starting => "Starting",
            ServiceState::Active => "Active",
            ServiceState::Reloading => "Reloading",
            ServiceState::Stopping => "Stopping",
            ServiceState::Backoff => "Backoff",
            ServiceState::Failed => "Failed",
            ServiceState::Skipped => "Skipped",
            ServiceState::Abandoned => "Abandoned",
            ServiceState::Completed => "Completed",
        }
    }

    /// Whether a service in this state has a process. A service that is
    /// `Starting` has already been exec'd; an `Abandoned` one left a process
    /// it could not kill.
    pub open spec fn spec_has_process(self) -> bool {
        match self {
            ServiceState::Starting | ServiceState::Active | ServiceState::Reloading
            | ServiceState::Stopping | ServiceState::Abandoned => true,
            _ => false,
        }
    }

    pub fn has_process(&self) -> (r: bool)
        ensures
            r == self.spec_has_process(),
    {
        match self {
            ServiceState::Starting | ServiceState::Active | ServiceState::Reloading
            | ServiceState::Stopping | ServiceState::Abandoned => true,
            _ => false,
        }
    }
}

/// Why a service changed state.
#[derive(Debug, Clone, Copy, PartialEq, Eq)]
pub enum TransitionCause {
    ExplicitStart,
    ExplicitStop,
    ExplicitReload,
    DependencyFailure,
    CycleDetected,
    ValidationError,
    AssertionError,
    ConditionSkipped,
    TtyUnavailable,
    ProcessExit,
    ProcessCrash,
    ProcessUnkillable,
    Timeout,
    HealthCheckFailure,
    WatchdogTimeout,
    Timer,
    Shutdown,
    InternalError,
}

impl TransitionCause {
    /// The variant's name, as `Debug` prints it.
    pub open spec fn spec_name(self) -> Seq<char> {
        match self {
            TransitionCause::ExplicitStart => "ExplicitStart"@,
            TransitionCause::ExplicitStop => "ExplicitStop"@,
            TransitionCause::ExplicitReload => "ExplicitReload"@,
            TransitionCause::DependencyFailure => "DependencyFailure"@,
            TransitionCause::CycleDetected => "CycleDetected"@,
            TransitionCause::ValidationError => "ValidationError"@,
            TransitionCause::AssertionError => "AssertionError"@,
            TransitionCause::ConditionSkipped => "ConditionSkipped"@,
            TransitionCause::TtyUnavailable => "TtyUnavailable"@,
            TransitionCause::ProcessExit => "ProcessExit"@,
            TransitionCause::ProcessCrash => "ProcessCrash"@,
            TransitionCause::ProcessUnkillable => "ProcessUnkillable"@,
            TransitionCause::Timeout => "Timeout"@,
            TransitionCause::HealthCheckFailure => "HealthCheckFailure"@,
            TransitionCause::WatchdogTimeout => "WatchdogTimeout"@,
            TransitionCause::Timer => "Timer"@,
            TransitionCause::Shutdown => "Shutdown"@,
            TransitionCause::InternalError => "InternalError"@,
        }
    }

    pub fn name(&self) -> (r: &'static str)
        ensures
            r@ == self.spec_name(),
    {
        match self {
            TransitionCause::ExplicitStart => "ExplicitStart",
            TransitionCause::ExplicitStop => "ExplicitStop",
            TransitionCause::ExplicitReload => "ExplicitReload",
            TransitionCause::DependencyFailure => "DependencyFailure",
            TransitionCause::CycleDetected => "CycleDetected",
            TransitionCause::ValidationError => "ValidationError",
            TransitionCause::AssertionError => "AssertionError",
            TransitionCause::ConditionSkipped => "ConditionSkipped",
            TransitionCause::TtyUnavailable => "TtyUnavailable",
            TransitionCause::ProcessExit => "ProcessExit",
            TransitionCause::ProcessCrash => "ProcessCrash",
            TransitionCause::ProcessUnkillable => "ProcessUnkillable",
            TransitionCause::Timeout => "Timeout",
            TransitionCause::HealthCheckFailure => "HealthCheckFailure",
            TransitionCause::WatchdogTimeout => "WatchdogTimeout",
            TransitionCause::Timer => "Timer",
            TransitionCause::Shutdown => "Shutdown",
            TransitionCause::InternalError => "InternalError",
        }
    }
}

/// One service's change of state.
#[derive(Debug, Clone, PartialEq, Eq)]
pub struct ServiceTransitionEvent {
    pub service: String,
    pub from: ServiceState,
    pub to: ServiceState,
    pub cause: TransitionCause,
    pub generation: u64,
}

/// A transition as the service table reports it.
#[derive(Debug, Clone, PartialEq, Eq)]
pub struct ServiceTableTransition {
    pub event: ServiceTransitionEvent,
}

/// Which of a service's cgroups leaked.
#[derive(Debug, Clone, Copy, PartialEq, Eq)]
pub enum LeakedCgroupKind {
    ServiceTree,
    Health,
    Hooks,
    Helper,
}

/// A service whose definition in the registry would not decode.
#[derive(Debug, Clone, PartialEq, Eq)]
pub struct UndecodableService {
    pub name: String,
    pub field: Option<String>,
    pub message: String,
}

/// What the runtime needs to know of one service: its name, the terminal it
/// declares (`TTYPath`), and its current state. `console_device` is the
/// device number of that terminal where the boundary could stat it.
#[derive(Debug, Clone, PartialEq, Eq)]
pub struct ServiceEntry {
    pub name: String,
    pub console_path: Option<String>,
    pub console_device: Option<u64>,
    pub state: ServiceState,
}

/// The services the supervisor holds, and the device number of peinit's own
/// console where it could be read.
#[derive(Debug, Clone, PartialEq, Eq)]
pub struct ServiceTable {
    pub services: Vec<ServiceEntry>,
    pub console_device: Option<u64>,
}

impl ServiceTable {
    /// A table of services as defined at boot, none of them started yet.
    pub fn from_definitions(definitions: Vec<ServiceEntry>) -> (t: Self)
        ensures
            t.services@ == definitions@,
            t.console_device is None,
    {
        ServiceTable { services: definitions, console_device: None }
    }
}

impl ServiceEntry {
    /// A service with no terminal, not yet started.
    pub fn defined(name: String) -> (e: Self)
        ensures
            e.name@ == name@,
            e.console_path is None,
            e.console_device is None,
            e.state == ServiceState::Inactive,
    {
        ServiceEntry { name, console_path: None, console_device: None, state: ServiceState::Inactive }
    }
}

} // verus!
