use vstd::prelude::*;

pub mod building;
pub mod git;
pub mod hg;
pub mod manifest;
pub mod pipeline;
pub mod resolver;
pub mod testrun;
pub mod text;
pub mod vcs;

verus! {

/// Errors surfaced by the bump workflows, grouped by failure family.
///
/// Every failure aborts the remaining pipeline; the payload is the
/// human-readable description shown to the operator.
#[derive(Debug, Clone)]
pub enum BumpError {
    /// A safety check failed before any mutation (dirty tree, unrecognized repository).
    Precondition(String),
    /// The command line was malformed.
    Usage(String),
    /// A manifest file could not be read or written.
    Io(String),
    /// A registry or history-host request failed or its response lacked the expected field.
    Network(String),
    /// A child process could not be started or exited with an unrecognized failure.
    Process(String),
}

} // verus!
