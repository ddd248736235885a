//! Run-wide configuration: application name, the argument vector of the
//! cleanup step, and the display budget of the package summary.

use vstd::prelude::*;

verus! {

/// Application configuration and constants.
///
/// Built once at startup and threaded read-only through every component;
/// there is no ambient global state.
pub struct Config {
    /// Application name used in the banner.
    pub app_name: &'static str,
    /// Argument vector handed to the external tool for the cleanup step.
    pub cleanup_args: Vec<&'static str>,
    /// Maximum number of package lines printed by the summary step before
    /// the listing is truncated with an "and N more" marker.
    pub max_packages_display: usize,
}

/// What the default configuration holds: the fixed cleanup argument vector
/// and a display budget of ten packages.
pub open spec fn is_default_config(c: Config) -> bool {
    &&& c.app_name@ == "BrewUp"@
    &&& c.cleanup_args@.len() == 2
    &&& c.cleanup_args@[0]@ == "cleanup"@
    &&& c.cleanup_args@[1]@ == "--prune=all"@
    &&& c.max_packages_display == 10
}

impl Default for Config {
    fn default() -> (c: Config)
        ensures
            is_default_config(c),
    {
        Config {
            app_name: "BrewUp",
            cleanup_args: vec!["cleanup", "--prune=all"],
            max_packages_display: 10,
        }
    }
}

impl Config {
    /// Creates a new configuration with default values.
    pub fn new() -> (c: Config)
        ensures
            is_default_config(c),
    {
        Config::default()
    }

    /// Returns the cleanup command arguments.
    pub fn cleanup_args(&self) -> (r: &[&'static str])
        ensures
            r@ == self.cleanup_args@,
    {
        self.cleanup_args.as_slice()
    }

    /// Returns the maximum number of packages to display in the summary.
    pub fn max_packages_display(&self) -> (r: usize)
        ensures
            r == self.max_packages_display,
    {
        self.max_packages_display
    }
}

} // verus!
