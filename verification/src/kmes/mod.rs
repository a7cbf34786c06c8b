//! The audit records a turn of the runtime loop emits.
pub mod event;
pub mod job;
pub mod submitted;
pub mod system;
pub mod turn;
pub mod emit;
