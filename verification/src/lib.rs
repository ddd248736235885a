//! Core engine of a package-manager maintenance workflow.
//!
//! The library holds the decision logic of a fixed five-stage pipeline
//! (availability gate, update, upgrade, cleanup, summary) that drives an
//! external package-management tool.  Every decision — which step runs,
//! which command it would issue, how a subprocess result is classified,
//! when the run aborts and with which exit code, and how the final package
//! summary is truncated — is made here and verified.  Spawning the tool,
//! parsing command-line flags and rendering coloured output are left to a
//! thin unverified shell around the library.

pub mod cli;
pub mod config;
pub mod laws;
pub mod outcome;
pub mod text;
pub mod workflow;
