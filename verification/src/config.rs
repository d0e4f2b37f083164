//! The configuration of a run, and the check of its target path.

use crate::error::ConfigError;
use vstd::prelude::*;

verus! {

/// What a run is asked to do.
pub struct Cli {
    /// The shell command line to run and monitor.
    pub command: String,
    /// The sampling interval, in milliseconds.
    pub rate: u64,
    /// The directory whose disk usage is sampled.
    pub path: String,
    /// Where the rows are written; standard output when absent.
    pub output: Option<String>,
}

/// Why a target path is rejected, if it is: it must exist and be a directory.
pub open spec fn path_fault(exists: bool, is_dir: bool) -> Option<ConfigError> {
    if !exists {
        Some(ConfigError::MissingPath)
    } else if !is_dir {
        Some(ConfigError::NotADirectory)
    } else {
        None
    }
}

/// Accepts a target path that exists and is a directory, and says what is
/// wrong with any other.
pub fn check_path(exists: bool, is_dir: bool) -> (verdict: Result<(), ConfigError>)
    ensures
        verdict == match path_fault(exists, is_dir) {
            Some(fault) => Err::<(), ConfigError>(fault),
            None => Ok(()),
        },
{
    if !exists {
        Err(ConfigError::MissingPath)
    } else if !is_dir {
        Err(ConfigError::NotADirectory)
    } else {
        Ok(())
    }
}

} // verus!
