//! The driver's decisions: which step comes next, given how the last one went.
//!
//! The runner performs each [`Action`] and reports its [`Outcome`]; the
//! driver itself neither sleeps nor reads nor writes.

use vstd::prelude::*;

verus! {

/// What the program was asked to do.
#[derive(Clone, Copy, Debug, PartialEq, Eq, Structural)]
pub enum Mode {
    /// One snapshot, then exit.
    OneShot,
    /// Snapshots forever, `interval_nanos` nanoseconds apart.
    Loop { interval_nanos: i64 },
}

/// The step the runner is performing.
#[derive(Clone, Copy, Debug, PartialEq, Eq, Structural)]
pub enum Phase {
    Sleeping,
    Refreshing,
    Emitting,
    Flushing,
    Exited { code: u8 },
}

/// What the runner is to do next.
#[derive(Clone, Copy, Debug, PartialEq, Eq, Structural)]
pub enum Action {
    /// Sleep for this many nanoseconds.
    Sleep { nanos: u64 },
    /// Refresh every category of the probe state.
    Refresh,
    /// Take a snapshot, encode it and write it as one line.
    Emit,
    /// Flush standard output.
    Flush,
    /// Exit with this status.
    Exit { code: u8 },
}

/// How the last action went.
#[derive(Clone, Copy, Debug, PartialEq, Eq, Structural)]
pub enum Outcome {
    Done,
    Failed,
}

/// The driver: its mode and the step in progress.
#[derive(Clone, Copy, Debug, PartialEq, Eq, Structural)]
pub struct Driver {
    pub mode: Mode,
    pub phase: Phase,
}

/// The exit status after a failed write or flush, or a snapshot that could
/// not be taken.
pub const EXIT_FAILURE: u8 = 1;

/// The length of a sleep for the asked interval: an interval of zero or
/// less asks for the shortest sleep there is.
pub open spec fn spec_pause(interval_nanos: i64) -> u64 {
    if interval_nanos <= 0 {
        0
    } else {
        interval_nanos as u64
    }
}

/// The action that goes with a phase.
pub open spec fn spec_action(mode: Mode, phase: Phase) -> Action {
    match phase {
        Phase::Sleeping => match mode {
            Mode::Loop { interval_nanos } => Action::Sleep { nanos: spec_pause(interval_nanos) },
            Mode::OneShot => Action::Sleep { nanos: 0 },
        },
        Phase::Refreshing => Action::Refresh,
        Phase::Emitting => Action::Emit,
        Phase::Flushing => Action::Flush,
        Phase::Exited { code } => Action::Exit { code },
    }
}

/// The first phase: a one-shot run refreshes at once, a loop sleeps first.
pub open spec fn spec_first_phase(mode: Mode) -> Phase {
    match mode {
        Mode::OneShot => Phase::Refreshing,
        Mode::Loop { .. } => Phase::Sleeping,
    }
}

/// The phase that follows `phase` after `outcome`. A sleep and a refresh
/// are always followed by the next step. A failed emit or flush ends the
/// run with [`EXIT_FAILURE`]. A one-shot run ends with status 0 after its
/// line; a loop flushes after each line and then sleeps again.
pub open spec fn spec_next_phase(mode: Mode, phase: Phase, outcome: Outcome) -> Phase {
    match phase {
        Phase::Sleeping => Phase::Refreshing,
        Phase::Refreshing => Phase::Emitting,
        Phase::Emitting => match outcome {
            Outcome::Failed => Phase::Exited { code: EXIT_FAILURE },
            Outcome::Done => match mode {
                Mode::OneShot => Phase::Exited { code: 0 },
                Mode::Loop { .. } => Phase::Flushing,
            },
        },
        Phase::Flushing => match outcome {
            Outcome::Failed => Phase::Exited { code: EXIT_FAILURE },
            Outcome::Done => Phase::Sleeping,
        },
        Phase::Exited { code } => Phase::Exited { code },
    }
}

/// The length of a sleep for the asked interval.
pub fn pause_nanos(interval_nanos: i64) -> (nanos: u64)
    ensures
        nanos == spec_pause(interval_nanos),
{
    if interval_nanos <= 0 {
        0
    } else {
        interval_nanos as u64
    }
}

impl Driver {
    /// The action the runner is to perform now.
    pub open spec fn spec_current(self) -> Action {
        spec_action(self.mode, self.phase)
    }

    /// The action the runner is to perform now.
    pub fn action(&self) -> (action: Action)
        ensures
            action == self.spec_current(),
    {
        match self.phase {
            Phase::Sleeping => match self.mode {
                Mode::Loop { interval_nanos } => Action::Sleep { nanos: pause_nanos(interval_nanos) },
                Mode::OneShot => Action::Sleep { nanos: 0 },
            },
            Phase::Refreshing => Action::Refresh,
            Phase::Emitting => Action::Emit,
            Phase::Flushing => Action::Flush,
            Phase::Exited { code } => Action::Exit { code },
        }
    }

    /// A driver at its first step.
    pub fn start(mode: Mode) -> (driver: Driver)
        ensures
            driver.mode == mode,
            driver.phase == spec_first_phase(mode),
    {
        let phase = match mode {
            Mode::OneShot => Phase::Refreshing,
            Mode::Loop { .. } => Phase::Sleeping,
        };
        Driver { mode, phase }
    }

    /// The driver after the current action ended with `outcome`.
    pub fn next(self, outcome: Outcome) -> (driver: Driver)
        ensures
            driver.mode == self.mode,
            driver.phase == spec_next_phase(self.mode, self.phase, outcome),
    {
        let phase = match self.phase {
            Phase::Sleeping => Phase::Refreshing,
            Phase::Refreshing => Phase::Emitting,
            Phase::Emitting => match outcome {
                Outcome::Failed => Phase::Exited { code: EXIT_FAILURE },
                Outcome::Done => match self.mode {
                    Mode::OneShot => Phase::Exited { code: 0 },
                    Mode::Loop { .. } => Phase::Flushing,
                },
            },
            Phase::Flushing => match outcome {
                Outcome::Failed => Phase::Exited { code: EXIT_FAILURE },
                Outcome::Done => Phase::Sleeping,
            },
            Phase::Exited { code } => Phase::Exited { code },
        };
        Driver { mode: self.mode, phase }
    }
}

/// The phase reached from `phase` after the outcomes `outcomes`, in order.
pub open spec fn spec_run(mode: Mode, phase: Phase, outcomes: Seq<Outcome>) -> Phase
    decreases outcomes.len(),
{
    if outcomes.len() == 0 {
        phase
    } else {
        spec_next_phase(mode, spec_run(mode, phase, outcomes.drop_last()), outcomes.last())
    }
}

/// A one-shot run refreshes, emits one line and exits: with status 0 if the
/// line was written, with a non-zero status if not. It never sleeps and
/// never emits a second line.
pub proof fn lemma_one_shot_run(refreshed: Outcome, emitted: Outcome)
    ensures
        spec_first_phase(Mode::OneShot) == Phase::Refreshing,
        spec_next_phase(Mode::OneShot, Phase::Refreshing, refreshed) == Phase::Emitting,
        spec_next_phase(Mode::OneShot, Phase::Emitting, emitted) == (Phase::Exited {
            code: if emitted == Outcome::Done {
                0u8
            } else {
                EXIT_FAILURE
            },
        }),
        EXIT_FAILURE != 0,
{
}

/// A loop starts with a sleep, and while nothing fails it goes round
/// through sleep, refresh, emit and flush: every line follows a refresh,
/// and every refresh follows a sleep.
pub proof fn lemma_loop_cycle(interval_nanos: i64, slept: Outcome, refreshed: Outcome)
    ensures
        spec_first_phase(Mode::Loop { interval_nanos }) == Phase::Sleeping,
        spec_action(Mode::Loop { interval_nanos }, Phase::Sleeping) == (Action::Sleep {
            nanos: spec_pause(interval_nanos),
        }),
        spec_run(
            Mode::Loop { interval_nanos },
            Phase::Sleeping,
            seq![slept, refreshed, Outcome::Done, Outcome::Done],
        ) == Phase::Sleeping,
        spec_next_phase(Mode::Loop { interval_nanos }, Phase::Sleeping, slept) == Phase::Refreshing,
        spec_next_phase(Mode::Loop { interval_nanos }, Phase::Refreshing, refreshed)
            == Phase::Emitting,
        spec_next_phase(Mode::Loop { interval_nanos }, Phase::Emitting, Outcome::Done)
            == Phase::Flushing,
        spec_next_phase(Mode::Loop { interval_nanos }, Phase::Flushing, Outcome::Done)
            == Phase::Sleeping,
{
    let mode = Mode::Loop { interval_nanos };
    let o4 = seq![slept, refreshed, Outcome::Done, Outcome::Done];
    let o3 = o4.drop_last();
    let o2 = o3.drop_last();
    let o1 = o2.drop_last();
    let o0 = o1.drop_last();
    assert(o0.len() == 0);
    assert(spec_run(mode, Phase::Sleeping, o0) == Phase::Sleeping);
    assert(o1.last() == slept);
    assert(spec_run(mode, Phase::Sleeping, o1) == Phase::Refreshing);
    assert(o2.last() == refreshed);
    assert(spec_run(mode, Phase::Sleeping, o2) == Phase::Emitting);
    assert(o3.last() == Outcome::Done);
    assert(spec_run(mode, Phase::Sleeping, o3) == Phase::Flushing);
    assert(o4.last() == Outcome::Done);
}

/// Once ended, a run stays ended with the same status.
pub proof fn lemma_exit_is_final(mode: Mode, code: u8, outcome: Outcome)
    ensures
        spec_next_phase(mode, (Phase::Exited { code }), outcome) == (Phase::Exited { code }),
{
}

/// A failed emit or flush ends the run with a non-zero status.
pub proof fn lemma_failure_exits(mode: Mode, phase: Phase)
    requires
        phase is Emitting || phase is Flushing,
    ensures
        spec_next_phase(mode, phase, Outcome::Failed) == (Phase::Exited { code: EXIT_FAILURE }),
        EXIT_FAILURE != 0,
{
}

/// A run ends only after a line: a one-shot run when its line was written
/// or could not be, a loop only when an emit or a flush failed.
pub proof fn lemma_exit_follows_a_line(mode: Mode, phase: Phase, outcome: Outcome)
    requires
        !(phase is Exited),
        spec_next_phase(mode, phase, outcome) is Exited,
    ensures
        phase is Emitting || phase is Flushing,
        outcome == Outcome::Done ==> mode is OneShot && phase is Emitting,
        (mode is Loop) ==> outcome == Outcome::Failed,
{
}

} // verus!
