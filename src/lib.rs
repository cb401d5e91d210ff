//! Event-driven lifecycle of one git command run as a child process: configuration,
//! transitions on process events, and the terminal result record.
pub mod git;
pub mod laws;
pub mod text;
pub mod types;
