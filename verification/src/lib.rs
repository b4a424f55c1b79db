//! Backend process supervisor.
//!
//! A desktop shell must bring up a separately maintained backend runtime as a
//! child process and guarantee it is torn down exactly once when the window
//! closes. This crate holds the decision core of that supervisor:
//!
//! * resolving, across installation layouts, the directory that holds the
//!   backend entry point (`paths`);
//! * choosing the interpreter that runs it, preferring a bundled runtime
//!   environment over the system one (`interpreter`);
//! * combining both into a launch plan (`plan`);
//! * tracking the launched process through a small state machine whose
//!   termination step is idempotent and kills at most one process
//!   (`supervisor`).
//!
//! Filesystem facts (which candidate directories exist) and the process handle
//! itself are supplied by the host: the library works on plain values, so every
//! decision it makes is verified.

pub mod interpreter;
pub mod paths;
pub mod plan;
pub mod platform;
pub mod supervisor;
