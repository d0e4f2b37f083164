//! The sampling loop, as a state machine.
//!
//! The driver decides what a run does next; its caller does it and reports
//! back. A run checks the target path, opens the output, takes the initial
//! measurement and launches the command (`Idle`); then polls the command and,
//! while it is alive, measures, records and sleeps (`Running`); once the
//! command is seen to have exited it measures and records one last time
//! (`Draining`) and is `Done`. Any failure on the way ends the run (`Failed`).

use crate::config::check_path;
use crate::config::path_fault;
use crate::config::Cli;
use crate::error::ConfigError;
use crate::error::MeasurementError;
use crate::error::RunError;
use crate::sampler::parse_disk_usage;
use crate::sampler::reading;
use vstd::prelude::*;

verus! {

/// The stage a run is in.
#[derive(Clone, Copy, Debug, PartialEq, Eq, Structural)]
pub enum Phase {
    Idle,
    Running,
    Draining,
    Done,
    Failed,
}

/// What an idle run is waiting for.
#[derive(Clone, Copy, Debug, PartialEq, Eq, Structural)]
pub enum Setup {
    CheckingPath,
    OpeningOutput,
    Measuring,
    Launching { initial_disk_usage: isize },
}

/// What a running sampling loop is waiting for.
#[derive(Clone, Copy, Debug, PartialEq, Eq, Structural)]
pub enum Cycle {
    Polling,
    Measuring,
    Recording { disk_usage: isize },
    Sleeping,
}

/// What a draining run is waiting for.
#[derive(Clone, Copy, Debug, PartialEq, Eq, Structural)]
pub enum Drain {
    Measuring,
    Recording { disk_usage: isize },
}

/// The state of a run.
#[derive(Clone, Copy, Debug, PartialEq, Eq, Structural)]
pub enum State {
    Idle(Setup),
    Running(Cycle),
    Draining(Drain),
    Done,
    Failed(RunError),
}

/// What the driver asks its caller to do.
#[derive(Clone, Copy, Debug, PartialEq, Eq, Structural)]
pub enum Action {
    /// Find out whether the target path exists and is a directory.
    CheckPath,
    /// Open the output sink.
    OpenOutput,
    /// Run the size tool on the target path and collect its output.
    Measure,
    /// Create the monitor with this initial disk usage, then launch the command.
    Launch { initial_disk_usage: isize },
    /// Ask, without blocking, whether the command has exited.
    Poll,
    /// Feed this measurement to the monitor and write the row it returns.
    Record { disk_usage: isize },
    /// Sleep for this many milliseconds.
    Sleep { millis: u64 },
    /// Stop: the run is complete.
    Finish,
    /// Stop: the run has failed.
    Abort(RunError),
}

/// What the caller reports back.
#[derive(Debug, PartialEq, Eq)]
pub enum Event {
    /// The answer to `CheckPath`.
    PathChecked { exists: bool, is_dir: bool },
    /// `OpenOutput` succeeded.
    OutputOpened,
    /// `OpenOutput` failed.
    OutputFailed,
    /// `Measure` ran the size tool; `output` is what the tool printed.
    Measured { output: Vec<u8> },
    /// `Measure` could not run the size tool.
    MeasureFailed,
    /// `Launch` succeeded.
    Launched,
    /// `Launch` failed.
    LaunchFailed,
    /// The answer to `Poll`.
    Polled { exited: bool },
    /// `Poll` failed.
    PollFailed,
    /// `Record` succeeded: the row is written and flushed.
    Recorded,
    /// `Record` failed.
    RecordFailed,
    /// `Sleep` is over.
    Slept,
}

/// The state every run starts in.
pub open spec fn initial() -> State {
    State::Idle(Setup::CheckingPath)
}

/// The stage that a state belongs to.
pub open spec fn phase_of(state: State) -> Phase {
    match state {
        State::Idle(_) => Phase::Idle,
        State::Running(_) => Phase::Running,
        State::Draining(_) => Phase::Draining,
        State::Done => Phase::Done,
        State::Failed(_) => Phase::Failed,
    }
}

/// The action that a state is waiting on. `rate` is the sampling interval.
pub open spec fn pending(state: State, rate: u64) -> Action {
    match state {
        State::Idle(Setup::CheckingPath) => Action::CheckPath,
        State::Idle(Setup::OpeningOutput) => Action::OpenOutput,
        State::Idle(Setup::Measuring) => Action::Measure,
        State::Idle(Setup::Launching { initial_disk_usage }) => Action::Launch {
            initial_disk_usage,
        },
        State::Running(Cycle::Polling) => Action::Poll,
        State::Running(Cycle::Measuring) => Action::Measure,
        State::Running(Cycle::Recording { disk_usage }) => Action::Record { disk_usage },
        State::Running(Cycle::Sleeping) => Action::Sleep { millis: rate },
        State::Draining(Drain::Measuring) => Action::Measure,
        State::Draining(Drain::Recording { disk_usage }) => Action::Record { disk_usage },
        State::Done => Action::Finish,
        State::Failed(error) => Action::Abort(error),
    }
}

/// The outcome of a `Measure` action that `event` reports, if it reports one.
pub open spec fn measurement(event: Event) -> Option<Result<isize, MeasurementError>> {
    match event {
        Event::Measured { output } => Some(reading(output@)),
        Event::MeasureFailed => Some(Err(MeasurementError::ToolFailed)),
        _ => None,
    }
}

/// The measurement that a state asks to have recorded, if it asks for one.
pub open spec fn recording(state: State) -> Option<isize> {
    match state {
        State::Running(Cycle::Recording { disk_usage }) => Some(disk_usage),
        State::Draining(Drain::Recording { disk_usage }) => Some(disk_usage),
        _ => None,
    }
}

/// The state is final: the run is over.
pub open spec fn is_final(state: State) -> bool {
    state is Done || state is Failed
}

/// The place of a stage in the order in which a run passes through them.
pub open spec fn phase_order(phase: Phase) -> nat {
    match phase {
        Phase::Idle => 0,
        Phase::Running => 1,
        Phase::Draining => 2,
        Phase::Done => 3,
        Phase::Failed => 3,
    }
}

/// The state that follows `state` when `event` is reported.
///
/// An event that does not answer the action `state` is waiting on fails the
/// run; `Done` and `Failed` are final.
pub open spec fn next(state: State, event: Event) -> State {
    match state {
        State::Idle(Setup::CheckingPath) => match event {
            Event::PathChecked { exists, is_dir } => match path_fault(exists, is_dir) {
                Some(fault) => State::Failed(RunError::Config(fault)),
                None => State::Idle(Setup::OpeningOutput),
            },
            _ => State::Failed(RunError::UnexpectedEvent),
        },
        State::Idle(Setup::OpeningOutput) => match event {
            Event::OutputOpened => State::Idle(Setup::Measuring),
            Event::OutputFailed => State::Failed(RunError::OutputUnavailable),
            _ => State::Failed(RunError::UnexpectedEvent),
        },
        State::Idle(Setup::Measuring) => match measurement(event) {
            Some(Ok(size)) => State::Idle(Setup::Launching { initial_disk_usage: size }),
            Some(Err(error)) => State::Failed(RunError::Measurement(error)),
            None => State::Failed(RunError::UnexpectedEvent),
        },
        State::Idle(Setup::Launching { .. }) => match event {
            Event::Launched => State::Running(Cycle::Polling),
            Event::LaunchFailed => State::Failed(RunError::ChildSpawn),
            _ => State::Failed(RunError::UnexpectedEvent),
        },
        State::Running(Cycle::Polling) => match event {
            Event::Polled { exited } => if exited {
                State::Draining(Drain::Measuring)
            } else {
                State::Running(Cycle::Measuring)
            },
            Event::PollFailed => State::Failed(RunError::ChildStatus),
            _ => State::Failed(RunError::UnexpectedEvent),
        },
        State::Running(Cycle::Measuring) => match measurement(event) {
            Some(Ok(size)) => State::Running(Cycle::Recording { disk_usage: size }),
            Some(Err(error)) => State::Failed(RunError::Measurement(error)),
            None => State::Failed(RunError::UnexpectedEvent),
        },
        State::Running(Cycle::Recording { .. }) => match event {
            Event::Recorded => State::Running(Cycle::Sleeping),
            Event::RecordFailed => State::Failed(RunError::Write),
            _ => State::Failed(RunError::UnexpectedEvent),
        },
        State::Running(Cycle::Sleeping) => match event {
            Event::Slept => State::Running(Cycle::Polling),
            _ => State::Failed(RunError::UnexpectedEvent),
        },
        State::Draining(Drain::Measuring) => match measurement(event) {
            Some(Ok(size)) => State::Draining(Drain::Recording { disk_usage: size }),
            Some(Err(error)) => State::Failed(RunError::Measurement(error)),
            None => State::Failed(RunError::UnexpectedEvent),
        },
        State::Draining(Drain::Recording { .. }) => match event {
            Event::Recorded => State::Done,
            Event::RecordFailed => State::Failed(RunError::Write),
            _ => State::Failed(RunError::UnexpectedEvent),
        },
        State::Done => State::Done,
        State::Failed(error) => State::Failed(error),
    }
}

/// The state reached from `start` after `events`, reported in order.
pub open spec fn run(start: State, events: Seq<Event>) -> State
    decreases events.len(),
{
    if events.len() == 0 {
        start
    } else {
        next(run(start, events.drop_last()), events.last())
    }
}

/// Each event advances a run by one step.
pub proof fn run_unfolds(start: State, events: Seq<Event>, k: int)
    requires
        0 <= k < events.len(),
    ensures
        run(start, events.take(k + 1)) == next(run(start, events.take(k)), events[k]),
{
    assert(events.take(k + 1).drop_last() =~= events.take(k));
}

/// Once a run is `Done` or `Failed` it stays exactly so, whatever is reported.
pub proof fn final_states_are_final(start: State, events: Seq<Event>, k: int, j: int)
    requires
        0 <= k <= j <= events.len(),
        is_final(run(start, events.take(k))),
    ensures
        run(start, events.take(j)) == run(start, events.take(k)),
    decreases j - k,
{
    if k < j {
        final_states_are_final(start, events, k, j - 1);
        run_unfolds(start, events, j - 1);
    }
}

/// A run never returns to an earlier stage: it passes from `Idle` through
/// `Running` and `Draining` to `Done`, or leaves for `Failed`.
pub proof fn phases_only_advance(start: State, events: Seq<Event>, i: int, j: int)
    requires
        0 <= i <= j <= events.len(),
    ensures
        phase_order(phase_of(run(start, events.take(i)))) <= phase_order(
            phase_of(run(start, events.take(j))),
        ),
    decreases j - i,
{
    if i < j {
        phases_only_advance(start, events, i, j - 1);
        run_unfolds(start, events, j - 1);
    }
}

/// The setup of a run goes in a fixed order: the path is checked, then the
/// output is opened, then the initial measurement is taken, then the command
/// is launched. A run that has not failed after `k` events has got exactly as
/// far as `k` says, and each of its first events reported success.
pub proof fn setup_runs_in_order(events: Seq<Event>, k: int)
    requires
        0 <= k <= events.len(),
        !(run(initial(), events.take(k)) is Failed),
    ensures
        k == 0 ==> run(initial(), events.take(k)) == State::Idle(Setup::CheckingPath),
        k >= 1 ==> events[0] == (Event::PathChecked { exists: true, is_dir: true }),
        k == 1 ==> run(initial(), events.take(k)) == State::Idle(Setup::OpeningOutput),
        k >= 2 ==> events[1] == Event::OutputOpened,
        k == 2 ==> run(initial(), events.take(k)) == State::Idle(Setup::Measuring),
        k >= 3 ==> measurement(events[2]) is Some && measurement(events[2])->0 is Ok,
        k >= 3 ==> run(initial(), events.take(3)) == State::Idle(
            Setup::Launching { initial_disk_usage: measurement(events[2])->0->Ok_0 },
        ),
        k >= 4 ==> events[3] == Event::Launched,
        k >= 4 ==> !(run(initial(), events.take(k)) is Idle),
{
    let at = |n: int| run(initial(), events.take(n));
    if k >= 1 {
        run_unfolds(initial(), events, 0);
        if at(1) is Failed {
            final_states_are_final(initial(), events, 1, k);
        }
    }
    if k >= 2 {
        run_unfolds(initial(), events, 1);
        if at(2) is Failed {
            final_states_are_final(initial(), events, 2, k);
        }
    }
    if k >= 3 {
        run_unfolds(initial(), events, 2);
        if at(3) is Failed {
            final_states_are_final(initial(), events, 3, k);
        }
    }
    if k >= 4 {
        run_unfolds(initial(), events, 3);
        if at(4) is Failed {
            final_states_are_final(initial(), events, 4, k);
        }
        phases_only_advance(initial(), events, 4, k);
    }
}

/// A path that is missing or is not a directory fails the run with a
/// `ConfigError` on the spot, and for good: from then on the driver asks only
/// for the run to be aborted, so the output is never opened and the command
/// never launched.
pub proof fn rejected_path_starts_nothing(events: Seq<Event>, exists: bool, is_dir: bool)
    requires
        events.len() > 0,
        events[0] == (Event::PathChecked { exists, is_dir }),
        !(exists && is_dir),
    ensures
        path_fault(exists, is_dir) is Some,
        forall|j: int|
            1 <= j <= events.len() ==> #[trigger] run(initial(), events.take(j)) == State::Failed(
                RunError::Config(path_fault(exists, is_dir)->0),
            ),
        forall|j: int, rate: u64|
            1 <= j <= events.len() ==> #[trigger] pending(run(initial(), events.take(j)), rate)
                == Action::Abort(RunError::Config(path_fault(exists, is_dir)->0)),
{
    run_unfolds(initial(), events, 0);
    assert forall|j: int| 1 <= j <= events.len() implies #[trigger] run(
        initial(),
        events.take(j),
    ) == State::Failed(RunError::Config(path_fault(exists, is_dir)->0)) by {
        final_states_are_final(initial(), events, 1, j);
    }
}

/// A record is asked for only in answer to a measurement that was read
/// successfully, and it carries exactly the size read.
pub proof fn record_carries_the_reading(events: Seq<Event>, k: int)
    requires
        0 <= k <= events.len(),
        recording(run(initial(), events.take(k))) is Some,
    ensures
        k >= 1,
        run(initial(), events.take(k - 1)) == State::Running(Cycle::Measuring) || run(
            initial(),
            events.take(k - 1),
        ) == State::Draining(Drain::Measuring),
        measurement(events[k - 1]) == Some(
            Ok::<isize, MeasurementError>(recording(run(initial(), events.take(k)))->0),
        ),
{
    run_unfolds(initial(), events, k - 1);
}

/// A measurement that fails, because the tool could not be run or because its
/// output is malformed, ends the run with that `MeasurementError`: no record
/// is asked for, then or later.
pub proof fn failed_measurement_ends_the_run(
    start: State,
    events: Seq<Event>,
    error: MeasurementError,
    k: int,
)
    requires
        0 < k <= events.len(),
        start == State::Idle(Setup::Measuring) || start == State::Running(Cycle::Measuring)
            || start == State::Draining(Drain::Measuring),
        measurement(events[0]) == Some(Err::<isize, MeasurementError>(error)),
    ensures
        run(start, events.take(k)) == State::Failed(RunError::Measurement(error)),
        recording(run(start, events.take(k))) is None,
{
    run_unfolds(start, events, 0);
    final_states_are_final(start, events, 1, k);
}

/// What must have been reported, and in which state, for a run to fail with
/// `error`.
pub open spec fn is_cause(state: State, event: Event, error: RunError) -> bool {
    match error {
        RunError::Config(fault) => {
            &&& state == State::Idle(Setup::CheckingPath)
            &&& event matches Event::PathChecked { exists, is_dir }
            &&& path_fault(exists, is_dir) == Some(fault)
        },
        RunError::OutputUnavailable => {
            &&& state == State::Idle(Setup::OpeningOutput)
            &&& event == Event::OutputFailed
        },
        RunError::Measurement(fault) => {
            &&& pending(state, 0) == Action::Measure
            &&& measurement(event) == Some(Err::<isize, MeasurementError>(fault))
        },
        RunError::ChildSpawn => {
            &&& state matches State::Idle(Setup::Launching { .. })
            &&& event == Event::LaunchFailed
        },
        RunError::ChildStatus => {
            &&& state == State::Running(Cycle::Polling)
            &&& event == Event::PollFailed
        },
        RunError::Write => {
            &&& recording(state) is Some
            &&& event == Event::RecordFailed
        },
        RunError::UnexpectedEvent => {
            &&& !is_final(state)
            &&& next(state, event) == State::Failed(RunError::UnexpectedEvent)
        },
    }
}

/// A run fails only for a cause: the step at which it becomes `Failed` is the
/// report of the failure that its error names, made in the state that was
/// waiting for that report.
pub proof fn failure_has_a_cause(events: Seq<Event>, k: int, error: RunError)
    requires
        0 <= k <= events.len(),
        run(initial(), events.take(k)) == State::Failed(error),
    ensures
        exists|j: int|
            0 <= j < k && is_cause(#[trigger] run(initial(), events.take(j)), events[j], error),
    decreases k,
{
    assert(events.take(0).len() == 0);
    run_unfolds(initial(), events, k - 1);
    if run(initial(), events.take(k - 1)) is Failed {
        failure_has_a_cause(events, k - 1, error);
    } else {
        assert(is_cause(run(initial(), events.take(k - 1)), events[k - 1], error));
    }
}

/// While the command is alive the loop goes round in a fixed order. A run
/// that is about to sleep has, in its last three steps, polled and found the
/// command alive, taken a measurement, and had the size read from it recorded.
pub proof fn sleep_follows_a_periodic_sample(events: Seq<Event>, k: int)
    requires
        0 <= k <= events.len(),
        run(initial(), events.take(k)) == State::Running(Cycle::Sleeping),
    ensures
        k >= 3,
        run(initial(), events.take(k - 3)) == State::Running(Cycle::Polling),
        events[k - 3] == (Event::Polled { exited: false }),
        run(initial(), events.take(k - 2)) == State::Running(Cycle::Measuring),
        recording(run(initial(), events.take(k - 1))) is Some,
        run(initial(), events.take(k - 1)) is Running,
        measurement(events[k - 2]) == Some(
            Ok::<isize, MeasurementError>(recording(run(initial(), events.take(k - 1)))->0),
        ),
        events[k - 1] == Event::Recorded,
{
    run_unfolds(initial(), events, k - 1);
    run_unfolds(initial(), events, k - 2);
    run_unfolds(initial(), events, k - 3);
}

/// A run completes only through the sample taken after the command's exit was
/// seen. If the run becomes `Done` at the `k`-th event, then three events
/// earlier the poll reported the exit; in answer the driver asked for a
/// measurement; the size read from it is the one it asked to have recorded;
/// and the report of that record completed the run. Nothing is recorded
/// after it.
pub proof fn completed_run_ends_with_post_exit_sample(events: Seq<Event>, k: int)
    requires
        0 < k <= events.len(),
        run(initial(), events.take(k)) == State::Done,
        run(initial(), events.take(k - 1)) != State::Done,
    ensures
        k >= 3,
        run(initial(), events.take(k - 3)) == State::Running(Cycle::Polling),
        events[k - 3] == (Event::Polled { exited: true }),
        run(initial(), events.take(k - 2)) == State::Draining(Drain::Measuring),
        recording(run(initial(), events.take(k - 1))) is Some,
        run(initial(), events.take(k - 1)) is Draining,
        measurement(events[k - 2]) == Some(
            Ok::<isize, MeasurementError>(recording(run(initial(), events.take(k - 1)))->0),
        ),
        events[k - 1] == Event::Recorded,
        forall|j: int|
            k <= j <= events.len() ==> recording(#[trigger] run(initial(), events.take(j)))
                is None,
{
    run_unfolds(initial(), events, k - 1);
    run_unfolds(initial(), events, k - 2);
    run_unfolds(initial(), events, k - 3);
    assert forall|j: int| k <= j <= events.len() implies recording(
        #[trigger] run(initial(), events.take(j)),
    ) is None by {
        final_states_are_final(initial(), events, k, j);
    }
}

/// The event at which a run that is `Done` after `n` events became so.
proof fn completion_point(events: Seq<Event>, n: int) -> (k: int)
    requires
        0 <= n <= events.len(),
        run(initial(), events.take(n)) == State::Done,
    ensures
        0 < k <= n,
        run(initial(), events.take(k)) == State::Done,
        run(initial(), events.take(k - 1)) != State::Done,
    decreases n,
{
    if run(initial(), events.take(n - 1)) == State::Done {
        completion_point(events, n - 1)
    } else {
        n
    }
}

/// Every completed run has asked for at least one record, however soon the
/// command exited: the one for the sample taken after the exit was seen.
pub proof fn completed_run_records_at_least_once(events: Seq<Event>)
    requires
        run(initial(), events) == State::Done,
    ensures
        exists|k: int|
            0 <= k < events.len() && recording(#[trigger] run(initial(), events.take(k)))
                is Some,
{
    assert(events.take(events.len() as int) =~= events);
    let k = completion_point(events, events.len() as int);
    completed_run_ends_with_post_exit_sample(events, k);
}

/// The sampling loop of one run.
pub struct Driver {
    state: State,
    rate: u64,
    reported: Ghost<Seq<Event>>,
}

/// Reads the outcome of a `Measure` action out of `event`.
fn measurement_of(event: Event) -> (outcome: Option<Result<isize, MeasurementError>>)
    ensures
        outcome == measurement(event),
{
    match event {
        Event::Measured { output } => Some(parse_disk_usage(output.as_slice())),
        Event::MeasureFailed => Some(Err(MeasurementError::ToolFailed)),
        _ => None,
    }
}

impl Driver {
    #[verifier::type_invariant]
    spec fn well_formed(self) -> bool {
        self.state == run(initial(), self.reported@)
    }

    /// The events reported so far, in order.
    pub closed spec fn reported(&self) -> Seq<Event> {
        self.reported@
    }

    /// The state the run is in.
    pub closed spec fn spec_state(&self) -> State {
        self.state
    }

    /// The sampling interval, in milliseconds.
    pub closed spec fn spec_rate(&self) -> u64 {
        self.rate
    }

    /// A driver for the run that `config` describes, about to check the path.
    pub fn new(config: &Cli) -> (driver: Self)
        ensures
            driver.state() == initial(),
            driver.rate() == config.rate,
            driver.reported() == Seq::<Event>::empty(),
    {
        Self {
            state: State::Idle(Setup::CheckingPath),
            rate: config.rate,
            reported: Ghost(Seq::empty()),
        }
    }

    /// The state the run is in: the one that the events reported so far lead
    /// to from the initial state.
    #[verifier::when_used_as_spec(spec_state)]
    pub fn state(&self) -> (state: State)
        ensures
            state == self.spec_state(),
            state == run(initial(), self.reported()),
    {
        proof {
            use_type_invariant(self);
        }
        self.state
    }

    /// The sampling interval, in milliseconds.
    #[verifier::when_used_as_spec(spec_rate)]
    pub fn rate(&self) -> (rate: u64)
        ensures
            rate == self.spec_rate(),
    {
        self.rate
    }

    /// The stage the run is in.
    pub fn phase(&self) -> (phase: Phase)
        ensures
            phase == phase_of(self.state()),
    {
        match self.state {
            State::Idle(_) => Phase::Idle,
            State::Running(_) => Phase::Running,
            State::Draining(_) => Phase::Draining,
            State::Done => Phase::Done,
            State::Failed(_) => Phase::Failed,
        }
    }

    /// The action the driver is waiting on.
    pub fn pending(&self) -> (action: Action)
        ensures
            action == pending(self.state(), self.rate()),
    {
        match self.state {
            State::Idle(setup) => match setup {
                Setup::CheckingPath => Action::CheckPath,
                Setup::OpeningOutput => Action::OpenOutput,
                Setup::Measuring => Action::Measure,
                Setup::Launching { initial_disk_usage } => Action::Launch { initial_disk_usage },
            },
            State::Running(cycle) => match cycle {
                Cycle::Polling => Action::Poll,
                Cycle::Measuring => Action::Measure,
                Cycle::Recording { disk_usage } => Action::Record { disk_usage },
                Cycle::Sleeping => Action::Sleep { millis: self.rate },
            },
            State::Draining(drain) => match drain {
                Drain::Measuring => Action::Measure,
                Drain::Recording { disk_usage } => Action::Record { disk_usage },
            },
            State::Done => Action::Finish,
            State::Failed(error) => Action::Abort(error),
        }
    }

    /// Takes in the report on the pending action, moves to the next state and
    /// returns the action to perform next.
    pub fn step(&mut self, event: Event) -> (action: Action)
        ensures
            final(self).state() == next(old(self).state(), event),
            final(self).rate() == old(self).rate(),
            final(self).reported() == old(self).reported().push(event),
            action == pending(final(self).state(), final(self).rate()),
    {
        let ghost reported = self.reported@.push(event);
        proof {
            use_type_invariant(&*self);
            assert(reported.drop_last() =~= self.reported@);
        }
        let unexpected = State::Failed(RunError::UnexpectedEvent);
        let state = match self.state {
            State::Idle(Setup::CheckingPath) => match event {
                Event::PathChecked { exists, is_dir } => match check_path(exists, is_dir) {
                    Err(fault) => State::Failed(RunError::Config(fault)),
                    Ok(()) => State::Idle(Setup::OpeningOutput),
                },
                _ => unexpected,
            },
            State::Idle(Setup::OpeningOutput) => match event {
                Event::OutputOpened => State::Idle(Setup::Measuring),
                Event::OutputFailed => State::Failed(RunError::OutputUnavailable),
                _ => unexpected,
            },
            State::Idle(Setup::Launching { .. }) => match event {
                Event::Launched => State::Running(Cycle::Polling),
                Event::LaunchFailed => State::Failed(RunError::ChildSpawn),
                _ => unexpected,
            },
            State::Running(Cycle::Polling) => match event {
                Event::Polled { exited: true } => State::Draining(Drain::Measuring),
                Event::Polled { exited: false } => State::Running(Cycle::Measuring),
                Event::PollFailed => State::Failed(RunError::ChildStatus),
                _ => unexpected,
            },
            State::Running(Cycle::Sleeping) => match event {
                Event::Slept => State::Running(Cycle::Polling),
                _ => unexpected,
            },
            State::Running(Cycle::Recording { .. }) | State::Draining(Drain::Recording { .. }) => {
                let draining = matches!(self.state, State::Draining(_));
                match event {
                    Event::Recorded => if draining {
                        State::Done
                    } else {
                        State::Running(Cycle::Sleeping)
                    },
                    Event::RecordFailed => State::Failed(RunError::Write),
                    _ => unexpected,
                }
            },
            State::Idle(Setup::Measuring) | State::Running(Cycle::Measuring) | State::Draining(
                Drain::Measuring,
            ) => match measurement_of(event) {
                Some(Ok(size)) => match self.state {
                    State::Idle(_) => State::Idle(Setup::Launching { initial_disk_usage: size }),
                    State::Running(_) => State::Running(Cycle::Recording { disk_usage: size }),
                    _ => State::Draining(Drain::Recording { disk_usage: size }),
                },
                Some(Err(error)) => State::Failed(RunError::Measurement(error)),
                None => unexpected,
            },
            State::Done => State::Done,
            State::Failed(error) => State::Failed(error),
        };
        *self = Self { state, rate: self.rate, reported: Ghost(reported) };
        self.pending()
    }
}

} // verus!
