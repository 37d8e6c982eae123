//! Decisions behind a personal command-snippet manager: where each command's
//! artifacts live, when a command must be rebuilt, how compile failures are
//! recorded and found again, how a batch reload aggregates its outcomes, and
//! how the command line selects an operation.
pub mod text;
pub mod staleness;
pub mod layout;
pub mod diagnostics;
pub mod origin;
pub mod lifecycle;
pub mod batch;
pub mod removal;
pub mod cli;
