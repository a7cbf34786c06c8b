//! The state the Linux runtime keeps between turns, and the decisions it
//! makes on it.
pub mod config;
pub mod calendar;
pub mod timer_last_run;
pub mod runtime;
pub mod turn;
