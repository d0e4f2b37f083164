//! Disk-usage monitoring for a running command.
//!
//! A run launches a command and, until the command exits, samples the disk
//! usage of a directory, emitting one row per sample with the running peak and
//! the delta from the usage measured before the launch.
//!
//! - [`sampler`] reads a measurement out of the size tool's output.
//! - [`monitor`] keeps the peak and turns measurements into rows.
//! - [`driver`] is the sampling loop, as a state machine that tells its
//!   caller what to do next.
//! - [`config`], [`row`] and [`error`] hold the data they work on.

pub mod config;
pub mod driver;
pub mod error;
pub mod monitor;
pub mod row;
pub mod sampler;
