//! The monitor: the time-series state of one run and the rows it emits.
//!
//! A monitor remembers the disk usage measured before the command started and
//! the largest measurement seen since. Each measurement fed to it becomes one
//! [`Row`], stamped with the time elapsed since the monitor was created.

use crate::row::delta_fits;
use crate::row::Row;
use crate::row::RowView;
use std::time::Duration;
use std::time::Instant;
use vstd::prelude::*;

verus! {

/// `std::time::Instant`, a reading of the monotonic clock. Nothing inside it
/// is visible to the verifier.
#[verifier::external_type_specification]
#[verifier::external_body]
pub struct ExInstant(Instant);

/// `Instant::now` reads the monotonic clock. Nothing is claimed of the reading.
pub assume_specification[ Instant::now ]() -> (now: Instant);

/// `Instant::elapsed` gives the time that has passed since `start` was read.
/// Nothing is claimed of the amount.
pub assume_specification[ Instant::elapsed ](start: &Instant) -> (passed: Duration);

/// `Duration::as_millis` gives the whole milliseconds in `d`. Nothing is
/// claimed of the number.
pub assume_specification[ Duration::as_millis ](d: &Duration) -> (millis: u128);

/// The larger of the peak so far and a new measurement.
pub open spec fn peak_after(peak: int, disk_usage: int) -> int {
    if disk_usage > peak {
        disk_usage
    } else {
        peak
    }
}

/// One measurement together with the clock reading it is stamped with.
pub struct Sample {
    pub elapsed: nat,
    pub disk_usage: int,
}

/// The mathematical content of a [`Monitor`].
pub struct MonitorView {
    /// The disk usage measured before the command started.
    pub initial: int,
    /// The largest disk usage seen so far, the initial one included.
    pub peak: int,
}

impl MonitorView {
    /// The state of a freshly created monitor.
    pub open spec fn fresh(initial: int) -> MonitorView {
        MonitorView { initial, peak: initial }
    }

    /// The state after one more measurement.
    pub open spec fn advance(self, disk_usage: int) -> MonitorView {
        MonitorView { initial: self.initial, peak: peak_after(self.peak, disk_usage) }
    }

    /// The row emitted for a measurement taken in this state.
    pub open spec fn row(self, sample: Sample) -> RowView {
        RowView {
            elapsed: sample.elapsed,
            disk_usage: sample.disk_usage,
            delta: sample.disk_usage - self.initial,
            peak: peak_after(self.peak, sample.disk_usage),
        }
    }

    /// The state after a sequence of measurements, fed in order.
    pub open spec fn after(self, samples: Seq<Sample>) -> MonitorView
        decreases samples.len(),
    {
        if samples.len() == 0 {
            self
        } else {
            self.after(samples.drop_last()).advance(samples.last().disk_usage)
        }
    }

    /// The rows emitted for a sequence of measurements, fed in order.
    pub open spec fn rows(self, samples: Seq<Sample>) -> Seq<RowView> {
        Seq::new(samples.len(), |i: int| self.after(samples.take(i)).row(samples[i]))
    }
}

/// Feeding one more measurement extends the emitted rows by the row for that
/// measurement, and leaves the earlier rows as they were.
pub proof fn rows_extend(m: MonitorView, samples: Seq<Sample>, sample: Sample)
    ensures
        m.after(samples.push(sample)) == m.after(samples).advance(sample.disk_usage),
        m.rows(samples.push(sample)) == m.rows(samples).push(m.after(samples).row(sample)),
{
    let longer = samples.push(sample);
    assert(longer.drop_last() =~= samples);
    assert forall|i: int| 0 <= i < longer.len() implies #[trigger] m.rows(longer)[i] == m.rows(
        samples,
    ).push(m.after(samples).row(sample))[i] by {
        if i < samples.len() {
            assert(longer.take(i) =~= samples.take(i));
        }
    }
}

/// The peak held after a longer run of measurements is at least the peak held
/// after any shorter beginning of it.
proof fn peak_grows(m: MonitorView, samples: Seq<Sample>, i: int, j: int)
    requires
        0 <= i <= j <= samples.len(),
    ensures
        m.after(samples.take(i)).peak <= m.after(samples.take(j)).peak,
        m.after(samples.take(j)).initial == m.initial,
        m.peak <= m.after(samples.take(j)).peak,
    decreases j,
{
    if j > 0 {
        assert(samples.take(j).drop_last() =~= samples.take(j - 1));
        if i < j {
            peak_grows(m, samples, i, j - 1);
        } else {
            peak_grows(m, samples, j - 1, j - 1);
        }
    }
}

/// Whatever measurements a monitor is fed, the peaks it emits never decrease.
pub proof fn peaks_never_decrease(m: MonitorView, samples: Seq<Sample>, i: int, j: int)
    requires
        0 <= i <= j < samples.len(),
    ensures
        m.rows(samples)[i].peak <= m.rows(samples)[j].peak,
{
    peak_grows(m, samples, i, j);
    peak_grows(m, samples, j, j + 1);
    if i < j {
        peak_grows(m, samples, i + 1, j);
    }
}

/// Every emitted row carries its own measurement, and a peak that is at least
/// that measurement, at least every earlier measurement, and at least the peak
/// the monitor started from.
pub proof fn peak_covers_measurements(m: MonitorView, samples: Seq<Sample>, i: int, k: int)
    requires
        0 <= k <= i < samples.len(),
    ensures
        m.rows(samples)[i].disk_usage == samples[i].disk_usage,
        m.rows(samples)[i].peak >= samples[i].disk_usage,
        m.rows(samples)[i].peak >= samples[k].disk_usage,
        m.rows(samples)[i].peak >= m.peak,
{
    peak_grows(m, samples, i, i);
    if k < i {
        peaks_never_decrease(m, samples, k, i);
    }
}

/// A monitor whose peak is at least its initial usage, as every monitor's is,
/// emits only peaks that are at least the initial usage.
pub proof fn peak_covers_initial(m: MonitorView, samples: Seq<Sample>, i: int)
    requires
        m.initial <= m.peak,
        0 <= i < samples.len(),
    ensures
        m.rows(samples)[i].peak >= m.initial,
{
    peak_covers_measurements(m, samples, i, i);
}

/// The peak of an emitted row is one of the values seen: the peak the monitor
/// started from, or a measurement up to and including the row's own.
pub proof fn peak_is_attained(m: MonitorView, samples: Seq<Sample>, i: int)
    requires
        0 <= i < samples.len(),
    ensures
        m.rows(samples)[i].peak == m.peak || exists|k: int|
            0 <= k <= i && m.rows(samples)[i].peak == #[trigger] samples[k].disk_usage,
    decreases i,
{
    if i > 0 {
        peak_is_attained(m, samples, i - 1);
        assert(samples.take(i).drop_last() =~= samples.take(i - 1));
    }
}

/// Every emitted delta is exactly the row's measurement less the initial usage.
pub proof fn delta_is_exact(m: MonitorView, samples: Seq<Sample>, i: int)
    requires
        0 <= i < samples.len(),
    ensures
        m.rows(samples)[i].delta == m.rows(samples)[i].disk_usage - m.initial,
        m.rows(samples)[i].delta == samples[i].disk_usage - m.initial,
{
    peak_grows(m, samples, i, i);
}

/// Every emitted row is stamped with the clock reading of its sample, so as
/// long as the clock never runs backwards the emitted `elapsed` never
/// decreases; and no `elapsed` is negative.
pub proof fn elapsed_never_decreases(m: MonitorView, samples: Seq<Sample>, i: int, j: int)
    requires
        0 <= i <= j < samples.len(),
        forall|a: int, b: int|
            0 <= a <= b < samples.len() ==> samples[a].elapsed <= samples[b].elapsed,
    ensures
        m.rows(samples)[i].elapsed == samples[i].elapsed,
        m.rows(samples)[i].elapsed <= m.rows(samples)[j].elapsed,
        m.rows(samples)[0].elapsed >= 0,
{
}

/// The time-series state of one run.
pub struct Monitor {
    start_time: Instant,
    initial_disk_usage: isize,
    peak_disk_usage: isize,
    fed: Ghost<Seq<Sample>>,
}

impl View for Monitor {
    type V = MonitorView;

    closed spec fn view(&self) -> MonitorView {
        MonitorView { initial: self.initial_disk_usage as int, peak: self.peak_disk_usage as int }
    }
}

impl Monitor {
    #[verifier::type_invariant]
    spec fn well_formed(self) -> bool {
        &&& self.initial_disk_usage <= self.peak_disk_usage
        &&& self@ == MonitorView::fresh(self.initial_disk_usage as int).after(self.fed@)
    }

    /// The measurements recorded so far, in order, each with its clock reading.
    pub closed spec fn fed(&self) -> Seq<Sample> {
        self.fed@
    }

    /// The rows emitted so far, in order.
    pub open spec fn emitted(&self) -> Seq<RowView> {
        MonitorView::fresh(self@.initial).rows(self.fed())
    }

    /// Creates the monitor for a run and starts its clock. `initial_disk_usage`
    /// is the measurement taken before the command starts.
    pub fn new(initial_disk_usage: isize) -> (monitor: Self)
        ensures
            monitor@ == MonitorView::fresh(initial_disk_usage as int),
            monitor.fed() == Seq::<Sample>::empty(),
            monitor.emitted() == Seq::<RowView>::empty(),
    {
        Self {
            start_time: Instant::now(),
            initial_disk_usage,
            peak_disk_usage: initial_disk_usage,
            fed: Ghost(Seq::empty()),
        }
    }

    /// The disk usage measured before the command started.
    pub fn initial_disk_usage(&self) -> (initial: isize)
        ensures
            initial == self@.initial,
    {
        self.initial_disk_usage
    }

    /// The largest disk usage seen so far: the peak that the measurements
    /// recorded so far lead to, never below the initial usage.
    pub fn peak_disk_usage(&self) -> (peak: isize)
        ensures
            peak == self@.peak,
            self@.initial <= peak,
            self@ == MonitorView::fresh(self@.initial).after(self.fed()),
    {
        proof {
            use_type_invariant(self);
        }
        self.peak_disk_usage
    }

    /// Tells whether the delta of `size` from the initial usage fits `isize`,
    /// that is, whether `size` can be recorded.
    pub fn can_record(&self, size: isize) -> (fits: bool)
        ensures
            fits == delta_fits(size as int, self@.initial),
    {
        size.checked_sub(self.initial_disk_usage).is_some()
    }

    /// Records the measurement `size` as taken `elapsed` milliseconds after the
    /// monitor was created: raises the peak to it if it is larger, and returns
    /// the row to emit.
    pub fn record(&mut self, elapsed: u128, size: isize) -> (row: Row)
        requires
            delta_fits(size as int, old(self)@.initial),
        ensures
            final(self)@ == old(self)@.advance(size as int),
            row@ == old(self)@.row(Sample { elapsed: elapsed as nat, disk_usage: size as int }),
            final(self).fed() == old(self).fed().push(
                Sample { elapsed: elapsed as nat, disk_usage: size as int },
            ),
            final(self).emitted() == old(self).emitted().push(row@),
    {
        let ghost sample = Sample { elapsed: elapsed as nat, disk_usage: size as int };
        proof {
            use_type_invariant(&*self);
            rows_extend(MonitorView::fresh(self.initial_disk_usage as int), self.fed@, sample);
        }
        let peak = if size > self.peak_disk_usage {
            size
        } else {
            self.peak_disk_usage
        };
        *self = Self {
            start_time: self.start_time,
            initial_disk_usage: self.initial_disk_usage,
            peak_disk_usage: peak,
            fed: Ghost(self.fed@.push(sample)),
        };
        Row::new(elapsed, size, self.initial_disk_usage, peak)
    }

    /// Records the measurement `size` at the current clock reading. The row's
    /// `elapsed` is whatever the clock says; everything else is as in
    /// [`Monitor::record`].
    pub fn add_disk_usage(&mut self, size: isize) -> (row: Row)
        requires
            delta_fits(size as int, old(self)@.initial),
        ensures
            final(self)@ == old(self)@.advance(size as int),
            row@ == old(self)@.row(Sample { elapsed: row.elapsed as nat, disk_usage: size as int }),
            final(self).fed() == old(self).fed().push(
                Sample { elapsed: row.elapsed as nat, disk_usage: size as int },
            ),
            final(self).emitted() == old(self).emitted().push(row@),
    {
        let elapsed = self.start_time.elapsed().as_millis();
        self.record(elapsed, size)
    }
}

} // verus!
