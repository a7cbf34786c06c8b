//! What the runtime says on the console about a turn.
pub mod message;
pub mod policy;
pub mod service;
pub mod shutdown;
pub mod job;
pub mod control;
pub mod work;
pub mod turn;

