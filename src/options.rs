//! Run-time options of a synchronisation run.
use vstd::prelude::*;

verus! {

/// The options a run is started with.
#[derive(Clone, Debug)]
pub struct Opt {
    /// The repository, `owner/name`, when no configuration file lists any.
    pub repo: Option<String>,
    /// Compute patches but write none.
    pub dry_run: bool,
    /// Show no notifications.
    pub silent: bool,
    /// Print diagnostics.
    pub verbose: bool,
    /// The configuration file, when not the default one.
    pub config_file: Option<String>,
    /// Create a new feature instead of synchronising.
    pub generate: bool,
    /// List pull requests instead of synchronising.
    pub pr_status: bool,
    /// With `pr_status`, list closed pull requests too.
    pub closed: bool,
}

} // verus!
