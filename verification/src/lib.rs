//! Supervision of one locally bound backend service, written without I/O.
//!
//! Every component is a small state machine: the caller performs the outside
//! work (binding a socket, creating a process, sending an HTTP request,
//! signalling a process group) and reports what happened; the library decides
//! what happens next. Each exec type has a mathematical model, reached with
//! `@`, and every contract is stated over those models.

pub mod port;
pub mod address;
pub mod spawn;
pub mod probe;
pub mod lifecycle;
pub mod error;
pub mod supervisor;
pub mod glue;
