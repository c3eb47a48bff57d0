//! Process-wide configuration handed to the watcher and the load pipeline.
//!
//! The configuration is an explicitly constructed value: reading it from
//! disk, initializing a process-wide copy and taking read/write locks are
//! the application's concern, not the library's.

use vstd::prelude::*;

use crate::error::ConfigError;

verus! {

/// The library's configuration: which directories to watch and where the
/// application keeps its data and cache.
#[derive(Clone, Debug)]
pub struct Config {
    /// The paths that we'll be watching for new files.
    pub watched_paths: Vec<String>,

    /// Path to the app's data directory.
    pub data_dir: String,

    /// Path to the app's cache directory.
    pub cache_dir: String,

    /// Information for automatically reporting bugs.
    pub bug_report_info: BugReportInfo,
}

impl Config {
    pub fn new(
        watched_paths: Vec<String>,
        data_dir: String,
        cache_dir: String,
        bug_report_info: BugReportInfo,
    ) -> (r: Config)
        ensures
            r.watched_paths == watched_paths,
            r.data_dir == data_dir,
            r.cache_dir == cache_dir,
            r.bug_report_info == bug_report_info,
    {
        Config { watched_paths, data_dir, cache_dir, bug_report_info }
    }

    /// A configuration read back from disk must name the data directory
    /// it was read from; any other path is a stale copy from another
    /// install and is rejected.
    pub fn validate_loaded(&self, data_dir: &String) -> (r: Result<(), ConfigError>)
        ensures
            r is Ok <==> self.data_dir@ == data_dir@,
            r matches Err(e) ==> e is PathMismatch,
    {
        if self.data_dir == *data_dir {
            Ok(())
        } else {
            Err(ConfigError::PathMismatch)
        }
    }
}

/// Some info to help with bug reporting: it tells users where to report
/// bugs when they are looking at logs.
#[derive(Clone, Debug)]
pub struct BugReportInfo {
    pub app_name: String,
    pub app_version: String,

    pub target_triple: String,
    pub build_time: String,

    /// The device string.
    pub device: String,
    /// The display string reported by the platform.
    pub display: String,

    pub commit: String,
    pub repo: String,
}

/// Appearance settings for the app around the library.
pub struct AppAppearance {}

} // verus!
