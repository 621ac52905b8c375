//! Capture engine of a raw TCP spooler: every accepted connection is either
//! drained and thrown away or streamed into a freshly named file.
//!
//! The crate holds the decisions of that engine as verified state machines.
//! Sockets and files stay with the caller, which performs the commands that
//! the machines issue and reports back what happened.

pub mod capture;
pub mod decimal;
pub mod destination;
pub mod independence;
pub mod journal;
pub mod listener;
pub mod logline;
pub mod namespace;
pub mod settings;
pub mod window;
