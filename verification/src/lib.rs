//! The runtime layer of peinit, the Peios init system: what the event loop
//! says on the console and in the audit trail after each turn, which console
//! messages the quiet policy lets through, how event sources are decoded and
//! ordered, the tables of accepted connections and when each goes idle, and
//! the small pieces of state the Linux runtime keeps between turns.

pub mod seqs;
pub mod text;
pub mod model;
pub mod boundary;
pub mod console;
pub mod kmes;
pub mod event_loop;
pub mod connections;
pub mod jobs;
pub mod jfs;
pub mod linux;
