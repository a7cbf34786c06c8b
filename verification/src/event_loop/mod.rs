//! The runtime event loop: event sources, their ordering, and the limits
//! and errors of a loop turn.
pub mod source;
pub mod model;
pub mod timing;
