//! Shutdown: what kind, how far it got, and what its final action reported.
use vstd::prelude::*;

verus! {

#[derive(Debug, Clone, Copy, PartialEq, Eq)]
pub enum ShutdownKind {
    Poweroff,
    Reboot,
    Halt,
}

impl ShutdownKind {
    /// The variant's name, as `Debug` prints it.
    pub open spec fn spec_name(self) -> Seq<char> {
        match self {
            ShutdownKind::Poweroff => "Poweroff"@,
            ShutdownKind::Reboot => "Reboot"@,
            ShutdownKind::Halt => "Halt"@,
        }
    }

    pub fn name(&self) -> (r: &'static str)
        ensures
            r@ == self.spec_name(),
    {
        match self {
            ShutdownKind::Poweroff => "Poweroff",
            ShutdownKind::Reboot => "Reboot",
            ShutdownKind::Halt => "Halt",
        }
    }
}

/// The outcome of one cleanup step of a final action.
#[derive(Debug, Clone, PartialEq, Eq)]
pub enum CleanupActionResult {
    Succeeded,
    Skipped,
    Failed(String),
}

/// Where the final action of a shutdown stands.
#[derive(Debug, Clone, PartialEq, Eq)]
pub enum ShutdownFinalizationState {
    WaitingForServices,
    Ready,
    Failed { message: String, next_retry_at_ns: u64 },
    Completed,
}

/// What the steps of a final action reported.
#[derive(Debug, Clone, PartialEq, Eq)]
pub struct ShutdownFinalizationReport {
    pub random_seed: CleanupActionResult,
    pub sync_result: CleanupActionResult,
    pub reboot_result: CleanupActionResult,
}

/// A final action taken, and the state it left.
#[derive(Debug, Clone, PartialEq, Eq)]
pub struct SupervisorShutdownFinalizationDispatch {
    pub report: ShutdownFinalizationReport,
    pub finalization: ShutdownFinalizationState,
}

/// What spent a Critical service's restart budget.
#[derive(Debug, Clone, Copy, PartialEq, Eq)]
pub enum CriticalRebootTrigger {
    ServiceMainTerminal,
    HealthCheckFailure,
    WatchdogTimeout,
    /// The budget ran out with no single path to name.
    Unattributed,
}

impl CriticalRebootTrigger {
    /// The reason the console gives, where one path spent the budget.
    pub open spec fn spec_console_reason(self) -> Option<Seq<char>> {
        match self {
            CriticalRebootTrigger::ServiceMainTerminal => Some("service main exited"@),
            CriticalRebootTrigger::HealthCheckFailure => Some("health check failed"@),
            CriticalRebootTrigger::WatchdogTimeout => Some("watchdog timeout"@),
            CriticalRebootTrigger::Unattributed => None,
        }
    }

    pub fn console_reason(&self) -> (r: Option<&'static str>)
        ensures
            match r {
                Some(s) => self.spec_console_reason() == Some(s@),
                None => self.spec_console_reason() is None,
            },
    {
        match self {
            CriticalRebootTrigger::ServiceMainTerminal => Some("service main exited"),
            CriticalRebootTrigger::HealthCheckFailure => Some("health check failed"),
            CriticalRebootTrigger::WatchdogTimeout => Some("watchdog timeout"),
            CriticalRebootTrigger::Unattributed => None,
        }
    }
}

/// A Critical reboot owed but not yet taken.
#[derive(Debug, Clone, PartialEq, Eq)]
pub struct CriticalRebootOwed {
    pub service: String,
    pub trigger: CriticalRebootTrigger,
}

/// A Critical reboot raised inline, with its outcome.
#[derive(Debug, Clone, PartialEq, Eq)]
pub struct SupervisorCriticalBudgetRebootDispatch {
    pub service: String,
    pub trigger: CriticalRebootTrigger,
    pub observed_at_ns: Option<u64>,
    pub finalization: SupervisorShutdownFinalizationDispatch,
}

/// The final action a turn is about to take.
#[derive(Debug, Clone, PartialEq, Eq)]
pub enum RuntimePendingShutdownFinalization {
    CriticalBudgetReboot(CriticalRebootOwed),
    FinalAction,
}

/// What a final action that returned left to report.
#[derive(Debug, Clone, PartialEq, Eq)]
pub struct RuntimeShutdownFinalizationTurn {
    pub critical_budget_reboot: Option<SupervisorCriticalBudgetRebootDispatch>,
    pub finalization: Option<SupervisorShutdownFinalizationDispatch>,
}

} // verus!
