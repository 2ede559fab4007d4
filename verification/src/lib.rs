//! Supervision of one locally spawned server process.
//!
//! The crate holds the rules of a process supervisor: which command starts the
//! server, what the supervisor's single slot holds after each spawn attempt, and
//! what the caller is told. Creating the process is left to the host program,
//! which hands the outcome of each attempt back as a plain value.

pub mod launch;
pub mod supervisor;
