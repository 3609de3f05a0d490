//! A vocabulary study session: the challenges handed out by a remote study
//! service, the queue they are consumed from, the hints revealed for each one,
//! and the controller that turns user and network events into the next state
//! and the next request to the service.

pub mod challenge;
pub mod laws;
pub mod prompt;
pub mod queue;
pub mod study;
