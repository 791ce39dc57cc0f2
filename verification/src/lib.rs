//! Supervision of one long-lived helper process, the sidecar.
//!
//! The crate holds the decisions of the supervisor and leaves the work on the
//! operating system to its host: the host launches and terminates processes
//! and reads their pipes, and hands plain values to the functions here.
//!
//! * [`supervisor`] keeps the one handle that may be live at a time.
//! * [`output`] turns what the sidecar writes into log entries, in order.
//! * [`notice`] words what the host shows: diagnostics and the greeting.

pub mod notice;
pub mod output;
pub mod supervisor;
