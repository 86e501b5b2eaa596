//! The driver of a simulation run.
//!
//! A run advances the wave function by a fixed number of time steps; after every
//! time step whose index is a multiple of [`FRAME_INTERVAL`] (counting from 0) the
//! probability density is rendered as one video frame.  The schedule decides, one
//! call at a time, what the caller does next; the caller performs the step and
//! the rendering.
use vstd::prelude::*;

verus! {

/// A frame is rendered after every time step whose index is a multiple of this.
pub const FRAME_INTERVAL: usize = 10;

/// What the caller of [`FrameSchedule::next_action`] does next.
#[derive(PartialEq, Eq, Structural, Debug, Clone, Copy)]
pub enum StepAction {
    /// Advance the wave function by one time step.
    Step,
    /// Advance the wave function by one time step, then render a frame.
    StepAndRender,
    /// All time steps of the run are done.
    Finished,
}

/// The state of a run, seen as `(total, done)`: the number of time steps of the
/// run and the number handed out so far.
pub type RunState = (nat, nat);

/// Whether a frame is rendered after the time step of index `step`.
pub open spec fn renders_after(step: nat) -> bool {
    step % (FRAME_INTERVAL as nat) == 0
}

/// The action that the schedule hands out in state `v`.
pub open spec fn action_of(v: RunState) -> StepAction {
    if v.1 < v.0 {
        if renders_after(v.1) {
            StepAction::StepAndRender
        } else {
            StepAction::Step
        }
    } else {
        StepAction::Finished
    }
}

/// The state that follows `v` once its action has been handed out.
pub open spec fn next_state(v: RunState) -> RunState {
    if v.1 < v.0 {
        (v.0, v.1 + 1)
    } else {
        v
    }
}

/// The state after `m` actions have been handed out, starting in `v`.
pub open spec fn state_after(v: RunState, m: nat) -> RunState
    decreases m,
{
    if m == 0 {
        v
    } else {
        state_after(next_state(v), (m - 1) as nat)
    }
}

/// The number of time steps among `m` actions handed out, starting in `v`.
pub open spec fn steps_in_run(v: RunState, m: nat) -> nat
    decreases m,
{
    if m == 0 {
        0
    } else {
        (if action_of(v) is Finished {
            0nat
        } else {
            1nat
        }) + steps_in_run(next_state(v), (m - 1) as nat)
    }
}

/// The number of frames among `m` actions handed out, starting in `v`.
pub open spec fn frames_in_run(v: RunState, m: nat) -> nat
    decreases m,
{
    if m == 0 {
        0
    } else {
        (if action_of(v) is StepAndRender {
            1nat
        } else {
            0nat
        }) + frames_in_run(next_state(v), (m - 1) as nat)
    }
}

/// Hands out the actions of a run of a fixed number of time steps.
pub struct FrameSchedule {
    total: usize,
    done: usize,
}

impl View for FrameSchedule {
    type V = RunState;

    closed spec fn view(&self) -> RunState {
        (self.total as nat, self.done as nat)
    }
}

impl FrameSchedule {
    /// A schedule for a run of `iterations` time steps, none of them done yet.
    pub fn new(iterations: usize) -> (s: Self)
        ensures
            s@ == (iterations as nat, 0nat),
    {
        FrameSchedule { total: iterations, done: 0 }
    }

    /// The number of time steps of the run.
    pub fn total(&self) -> (t: usize)
        ensures
            t == self@.0,
    {
        self.total
    }

    /// The number of time steps handed out so far.
    pub fn completed(&self) -> (d: usize)
        ensures
            d == self@.1,
    {
        self.done
    }

    /// Hands out the next action: a time step, followed by a frame when its index
    /// is a multiple of [`FRAME_INTERVAL`], or `Finished` once every time step of
    /// the run has been handed out.
    pub fn next_action(&mut self) -> (a: StepAction)
        ensures
            a == action_of(old(self)@),
            final(self)@ == next_state(old(self)@),
    {
        if self.done < self.total {
            let step = self.done;
            self.done = self.done + 1;
            if step % FRAME_INTERVAL == 0 {
                StepAction::StepAndRender
            } else {
                StepAction::Step
            }
        } else {
            StepAction::Finished
        }
    }
}

/// The number of blocks of [`FRAME_INTERVAL`] time steps that the first `k` steps
/// start: `ceil(k / FRAME_INTERVAL)`.
pub open spec fn blocks_started(k: nat) -> int {
    (k + FRAME_INTERVAL - 1) / (FRAME_INTERVAL as int)
}

proof fn lemma_run_from(t: nat, d: nat)
    requires
        d <= t,
    ensures
        state_after((t, d), (t - d) as nat) == (t, t),
        steps_in_run((t, d), (t - d) as nat) == t - d,
        frames_in_run((t, d), (t - d) as nat) == blocks_started(t) - blocks_started(d),
    decreases t - d,
{
    if d < t {
        lemma_run_from(t, d + 1);
        assert(next_state((t, d)) == (t, d + 1));
        if renders_after(d) {
            assert(blocks_started(d) == blocks_started(d + 1) - 1);
        } else {
            assert(blocks_started(d) == blocks_started(d + 1));
        }
    }
}

/// A run of `iterations` time steps, driven until the schedule says `Finished`,
/// performs exactly `iterations` time steps and renders one frame per started
/// block of [`FRAME_INTERVAL`] steps, `ceil(iterations / 10)` frames in all;
/// then every further call answers `Finished` and changes nothing.
pub proof fn lemma_full_run(iterations: nat)
    ensures
        ({
            let start: RunState = (iterations, 0nat);
            let end = state_after(start, iterations);
            &&& end == (iterations, iterations)
            &&& steps_in_run(start, iterations) == iterations
            &&& frames_in_run(start, iterations) == blocks_started(iterations)
            &&& action_of(end) == StepAction::Finished
            &&& next_state(end) == end
        }),
{
    lemma_run_from(iterations, 0);
}

} // verus!
