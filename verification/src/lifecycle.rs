//! Lifecycle controller: run until asked to stop, then close the connection,
//! once.
//!
//! The program polls a shutdown flag, which an interrupt turns from "running"
//! to "stop". Each reading of the flag is handed to [`Lifecycle::poll`], which
//! answers with what to do next: wait for one poll interval, close the
//! connection, or leave the loop.

use vstd::prelude::*;

verus! {

/// The time between two readings of the shutdown flag, in milliseconds.
pub const POLL_INTERVAL_MS: u64 = 100;

/// Where the bridge is in its life.
#[derive(Clone, Copy, Debug, PartialEq, Eq, Structural)]
pub enum Phase {
    /// The connection is open and messages flow.
    Running,
    /// The connection has been closed.
    Closed,
}

/// What the program does after a reading of the shutdown flag.
#[derive(Clone, Copy, Debug, PartialEq, Eq, Structural)]
pub enum Step {
    /// Sleep for this long, then read the flag again.
    Wait { millis: u64 },
    /// Close the connection, then ask again.
    Close,
    /// Leave the loop: the connection is closed.
    Exit,
}

/// The step taken in a phase on a reading of the flag (`true`: keep
/// running).
pub open spec fn step_of(phase: Phase, running: bool) -> Step {
    match phase {
        Phase::Running => if running {
            Step::Wait { millis: POLL_INTERVAL_MS }
        } else {
            Step::Close
        },
        Phase::Closed => Step::Exit,
    }
}

/// The phase after that step.
pub open spec fn next_phase(phase: Phase, running: bool) -> Phase {
    match phase {
        Phase::Running => if running {
            Phase::Running
        } else {
            Phase::Closed
        },
        Phase::Closed => Phase::Closed,
    }
}

/// The phase reached from `phase` after the first `n` of a run of readings.
pub open spec fn phase_after(phase: Phase, readings: Seq<bool>, n: nat) -> Phase
    decreases n,
{
    if n == 0 {
        phase
    } else {
        next_phase(phase_after(phase, readings, (n - 1) as nat), readings[n - 1])
    }
}

/// The step taken on reading number `n` of a run of readings that starts in
/// `phase`.
pub open spec fn step_at(phase: Phase, readings: Seq<bool>, n: nat) -> Step {
    step_of(phase_after(phase, readings, n), readings[n as int])
}

/// The state of the run loop.
pub struct Lifecycle {
    phase: Phase,
}

impl Lifecycle {
    /// The phase that the loop is in.
    pub closed spec fn phase(&self) -> Phase {
        self.phase
    }

    /// The loop starts out running.
    pub fn new() -> (lifecycle: Self)
        ensures
            lifecycle.phase() == Phase::Running,
    {
        Lifecycle { phase: Phase::Running }
    }

    /// Whether the connection has been closed.
    pub fn is_closed(&self) -> (closed: bool)
        ensures
            closed == (self.phase() == Phase::Closed),
    {
        match self.phase {
            Phase::Running => false,
            Phase::Closed => true,
        }
    }

    /// Takes one reading of the shutdown flag (`true`: keep running) and says
    /// what to do next.
    pub fn poll(&mut self, running: bool) -> (step: Step)
        ensures
            step == step_of(old(self).phase(), running),
            final(self).phase() == next_phase(old(self).phase(), running),
    {
        match self.phase {
            Phase::Running => {
                if running {
                    Step::Wait { millis: POLL_INTERVAL_MS }
                } else {
                    self.phase = Phase::Closed;
                    Step::Close
                }
            },
            Phase::Closed => Step::Exit,
        }
    }
}

/// While every reading says "running", the loop stays running and every step
/// is a wait of one poll interval.
pub proof fn lemma_runs_while_flag_holds(readings: Seq<bool>, n: nat)
    requires
        n <= readings.len(),
        forall|i: int| 0 <= i < n ==> #[trigger] readings[i],
    ensures
        phase_after(Phase::Running, readings, n) == Phase::Running,
        forall|i: nat|
            i < n ==> #[trigger] step_at(Phase::Running, readings, i) == (Step::Wait {
                millis: POLL_INTERVAL_MS,
            }),
    decreases n,
{
    if n > 0 {
        lemma_runs_while_flag_holds(readings, (n - 1) as nat);
    }
}

/// Once closed, the loop stays closed.
pub proof fn lemma_closed_stays_closed(phase: Phase, readings: Seq<bool>, m: nat, n: nat)
    requires
        m <= n <= readings.len(),
        phase_after(phase, readings, m) == Phase::Closed,
    ensures
        phase_after(phase, readings, n) == Phase::Closed,
    decreases n,
{
    if n > m {
        lemma_closed_stays_closed(phase, readings, m, (n - 1) as nat);
    }
}

/// The step on reading number `n` of a run whose first "stop" is reading
/// number `stop`: a wait of one poll interval before it, the close on it, and
/// the exit after it.
pub open spec fn step_around_stop(n: nat, stop: nat) -> Step {
    if n < stop {
        Step::Wait { millis: POLL_INTERVAL_MS }
    } else if n == stop {
        Step::Close
    } else {
        Step::Exit
    }
}

/// The connection is closed exactly once, at the first reading that says
/// "stop": every step before it is a wait of one poll interval, the step on it
/// is the close, and every step after it leaves the loop.
pub proof fn lemma_closes_once_at_first_stop(readings: Seq<bool>, stop: nat)
    requires
        stop < readings.len(),
        !readings[stop as int],
        forall|i: int| 0 <= i < stop ==> #[trigger] readings[i],
    ensures
        forall|i: nat|
            i < readings.len() ==> #[trigger] step_at(Phase::Running, readings, i)
                == step_around_stop(i, stop),
{
    lemma_runs_while_flag_holds(readings, stop);
    assert forall|i: nat| i < readings.len() implies #[trigger] step_at(
        Phase::Running,
        readings,
        i,
    ) == step_around_stop(i, stop) by {
        if i > stop {
            lemma_closed_stays_closed(Phase::Running, readings, stop + 1, i);
        }
    }
}

} // verus!
