//! Lifecycle controller for a single sandboxed container instance.
//!
//! The crate verifies the decision logic of the controller: how the on-disk
//! root directory is resolved from an optional options descriptor, which kill
//! signals are accepted, how failures of the backing container runtime are
//! classified, how delete stays idempotent, and how the exit watcher records
//! the instance's exit status exactly once.  The surrounding process control
//! (file reads, signal delivery, thread spawning, blocking waits) is left to
//! an unverified shell that feeds its outcomes to these functions as plain
//! values.

pub mod errors;
pub mod exit;
pub mod lifecycle;
pub mod rootdir;
