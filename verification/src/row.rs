//! One emitted row of the time series.

use vstd::prelude::*;

verus! {

/// One row of the emitted time series.
#[derive(Clone, Copy, Debug, PartialEq, Eq, Structural)]
pub struct Row {
    /// Milliseconds since the monitor was created.
    pub elapsed: u128,
    /// The raw measurement.
    pub disk_usage: isize,
    /// The measurement minus the initial disk usage.
    pub delta: isize,
    /// The largest measurement seen so far, this one included.
    pub peak: isize,
}

/// The mathematical content of a [`Row`].
pub struct RowView {
    pub elapsed: nat,
    pub disk_usage: int,
    pub delta: int,
    pub peak: int,
}

impl View for Row {
    type V = RowView;

    open spec fn view(&self) -> RowView {
        RowView {
            elapsed: self.elapsed as nat,
            disk_usage: self.disk_usage as int,
            delta: self.delta as int,
            peak: self.peak as int,
        }
    }
}

/// True when `disk_usage - initial_disk_usage` is representable as an `isize`.
pub open spec fn delta_fits(disk_usage: int, initial_disk_usage: int) -> bool {
    isize::MIN <= disk_usage - initial_disk_usage <= isize::MAX
}

impl Row {
    /// Builds a row; `delta` is computed from the measurement and the initial usage.
    pub fn new(elapsed: u128, disk_usage: isize, initial_disk_usage: isize, peak: isize) -> (row: Self)
        requires
            delta_fits(disk_usage as int, initial_disk_usage as int),
        ensures
            row.elapsed == elapsed,
            row.disk_usage == disk_usage,
            row.delta == disk_usage - initial_disk_usage,
            row.peak == peak,
    {
        Self { elapsed, disk_usage, delta: disk_usage - initial_disk_usage, peak }
    }
}

} // verus!
