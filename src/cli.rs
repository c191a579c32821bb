//! The settings a run is started with.
use vstd::prelude::*;

verus! {

/// The command-line settings of a run.
pub struct Cli {
    /// More log output.
    pub debug: bool,
    /// Print the final text instead of committing it.
    pub dry_run: bool,
    /// Leave out the ticket step.
    pub skip_jira: bool,
}

} // verus!
