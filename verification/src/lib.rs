//! Decisions of the host tool: which commands to run, which files to write,
//! what to print, and when to stop, for each of its procedures.
pub mod plan;
pub mod setup;
pub mod text;
pub mod veil;
