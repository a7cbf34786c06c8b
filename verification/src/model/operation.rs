//! Operations (the lifecycle commands a service is asked to carry out) and
//! the graph executions that carry them.
use vstd::prelude::*;

verus! {

#[derive(Debug, Clone, Copy, PartialEq, Eq)]
pub enum OperationType {
    Start,
    Stop,
    Restart,
    Reload,
    Reset,
}

impl OperationType {
    /// The variant's name, as `Debug` prints it.
    pub open spec fn spec_name(self) -> Seq<char> {
        match self {
            OperationType::Start => "Start"@,
            OperationType::Stop => "Stop"@,
            OperationType::Restart => "Restart"@,
            OperationType::Reload => "Reload"@,
            OperationType::Reset => "Reset"@,
        }
    }

    pub fn name(&self) -> (r: &'static str)
        ensures
            r@ == self.spec_name(),
    {
        match self {
            OperationType::Start => "Start",
            OperationType::Stop => "Stop",
            OperationType::Restart => "Restart",
            OperationType::Reload => "Reload",
            OperationType::Reset => "Reset",
        }
    }
}

/// Which point of an operation's life an event records.
#[derive(Debug, Clone, Copy, PartialEq, Eq)]
pub enum OperationEventKind {
    Requested,
    Started,
    Completed,
}

/// An operation's event, as the operation store records it.
#[derive(Debug, Clone, PartialEq, Eq)]
pub struct OperationEvent {
    pub operation_id: u64,
    pub operation_type: OperationType,
    pub service: String,
    pub kind: OperationEventKind,
}

/// A step of a graph execution.
#[derive(Debug, Clone, PartialEq, Eq)]
pub struct GraphExecutionEvent {
    pub context_id: u64,
    pub service: String,
}

/// The answer to a request for an operation, and the events it produced.
#[derive(Debug, Clone, PartialEq, Eq)]
pub struct OperationRequestOutcome {
    pub returned_operation_id: u64,
    pub events: Vec<OperationEvent>,
}

/// An on-demand start admitted by the graph, and the events of the
/// operations it requested.
#[derive(Debug, Clone, PartialEq, Eq)]
pub struct OnDemandStartDispatch {
    pub requested: String,
    pub events: Vec<OperationEvent>,
}

} // verus!
