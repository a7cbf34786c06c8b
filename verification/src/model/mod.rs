//! The data the runtime layer reports on: what the supervisor did in a turn,
//! as it hands it back.
pub mod service;
pub mod job;
pub mod operation;
pub mod shutdown;
pub mod dispatch;
pub mod supervisor;
pub mod stop;
pub mod control;
pub mod deadline;
pub mod turn;
