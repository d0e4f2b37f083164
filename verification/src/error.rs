//! The ways a run can fail.

use vstd::prelude::*;

verus! {

/// The target path cannot be monitored.
#[derive(Clone, Copy, Debug, PartialEq, Eq, Structural)]
pub enum ConfigError {
    /// Nothing exists at the target path.
    MissingPath,
    /// The target path exists but is not a directory.
    NotADirectory,
}

/// A disk-usage measurement could not be obtained.
#[derive(Clone, Copy, Debug, PartialEq, Eq, Structural)]
pub enum MeasurementError {
    /// The size tool could not be run or its output could not be collected.
    ToolFailed,
    /// The tool's output holds no field separator.
    MissingSeparator,
    /// The leading field is not an optionally signed run of decimal digits.
    InvalidSize,
    /// The leading field is a decimal integer too large or too small for `isize`.
    OutOfRange,
}

/// Why a run ended in failure.
#[derive(Clone, Copy, Debug, PartialEq, Eq, Structural)]
pub enum RunError {
    /// The target path was rejected before anything was started.
    Config(ConfigError),
    /// The output sink could not be opened.
    OutputUnavailable,
    /// A measurement failed.
    Measurement(MeasurementError),
    /// The command could not be launched.
    ChildSpawn,
    /// The command's status could not be queried.
    ChildStatus,
    /// The sink rejected a row or could not flush it.
    Write,
    /// An event arrived that does not answer the action the driver asked for.
    UnexpectedEvent,
}

} // verus!
