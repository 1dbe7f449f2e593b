//! The cycle that both probe loops follow: probe each target in turn, wait,
//! start over; stop as soon as shutdown is signalled.
//!
//! The loop itself runs outside this crate, because probing and waiting are
//! I/O. It holds a [`Step`], does what the step says, and asks [`next`] what to
//! do after that.

use vstd::prelude::*;

verus! {

/// What the loop has to do now. The step is also all the state of the loop.
#[derive(Clone, Copy, Debug, PartialEq, Eq, Structural)]
pub enum Step {
    /// Probe the target with the given index, then report [`Signal::ProbeDone`].
    Probe(usize),
    /// Wait for the delay between two cycles or for shutdown, whichever comes
    /// first, then report [`Signal::WaitElapsed`] or [`Signal::Shutdown`].
    Wait,
    /// Leave the loop.
    Stop,
}

/// What happened while the loop did its step.
#[derive(Clone, Copy, Debug, PartialEq, Eq, Structural)]
pub enum Signal {
    /// The probe has ended, with a reading or without.
    ProbeDone,
    /// The delay between two cycles has passed.
    WaitElapsed,
    /// Shutdown was requested, or whoever could request it is gone.
    Shutdown,
}

/// The step with which a cycle over `targets` targets begins.
pub open spec fn first_step(targets: nat) -> Step {
    if targets > 0 {
        Step::Probe(0)
    } else {
        Step::Wait
    }
}

/// The step that follows `step` when `signal` arrives.
///
/// Shutdown stops the loop wherever it stands, and a stopped loop stays
/// stopped. A finished probe is followed by the probe of the next target, and
/// after the last target by the wait. A finished wait is followed by a new
/// cycle. A signal that does not answer the step changes nothing.
pub open spec fn next_step(targets: nat, step: Step, signal: Signal) -> Step {
    match (step, signal) {
        (Step::Stop, _) => Step::Stop,
        (_, Signal::Shutdown) => Step::Stop,
        (Step::Probe(i), Signal::ProbeDone) => if i + 1 < targets {
            Step::Probe((i + 1) as usize)
        } else {
            Step::Wait
        },
        (Step::Wait, Signal::WaitElapsed) => first_step(targets),
        (Step::Probe(i), Signal::WaitElapsed) => Step::Probe(i),
        (Step::Wait, Signal::ProbeDone) => Step::Wait,
    }
}

/// The step with which a loop over `targets` targets begins.
pub fn start(targets: usize) -> (step: Step)
    ensures
        step == first_step(targets as nat),
{
    if targets > 0 {
        Step::Probe(0)
    } else {
        Step::Wait
    }
}

/// The step that follows `step` when `signal` arrives.
pub fn next(targets: usize, step: Step, signal: Signal) -> (after: Step)
    ensures
        after == next_step(targets as nat, step, signal),
{
    match step {
        Step::Stop => Step::Stop,
        Step::Probe(i) => match signal {
            Signal::Shutdown => Step::Stop,
            Signal::ProbeDone => if i < targets && i + 1 < targets {
                Step::Probe(i + 1)
            } else {
                Step::Wait
            },
            Signal::WaitElapsed => Step::Probe(i),
        },
        Step::Wait => match signal {
            Signal::Shutdown => Step::Stop,
            Signal::WaitElapsed => start(targets),
            Signal::ProbeDone => Step::Wait,
        },
    }
}

/// Where the loop stands after `done` probes of a cycle have ended, counted
/// from the step `from`.
pub open spec fn after_probes(targets: nat, from: Step, done: nat) -> Step
    decreases done,
{
    if done == 0 {
        from
    } else {
        next_step(targets, after_probes(targets, from, (done - 1) as nat), Signal::ProbeDone)
    }
}

/// A cycle probes every target once, in order, and then waits: after `done`
/// probes of a cycle the loop is about to probe target `done`, and after the
/// last probe it waits.
pub proof fn law_cycle_probes_each_target_once(targets: nat, done: nat)
    requires
        0 < targets <= usize::MAX,
        done <= targets,
    ensures
        after_probes(targets, first_step(targets), done) == if done < targets {
            Step::Probe(done as usize)
        } else {
            Step::Wait
        },
    decreases done,
{
    if done > 0 {
        law_cycle_probes_each_target_once(targets, (done - 1) as nat);
    }
}

/// After the wait a new cycle begins, unless shutdown was signalled.
pub proof fn law_wait_starts_the_next_cycle(targets: nat)
    ensures
        next_step(targets, Step::Wait, Signal::WaitElapsed) == first_step(targets),
{
}

/// Shutdown stops the loop at once, also in the middle of a wait, and nothing
/// starts it again.
pub proof fn law_shutdown_stops(targets: nat, step: Step, later: Signal)
    ensures
        next_step(targets, step, Signal::Shutdown) == Step::Stop,
        next_step(targets, Step::Stop, later) == Step::Stop,
{
}

/// No probe ends the loop, however it came out: after a probe the loop goes
/// on to the next target or to the wait.
pub proof fn law_probes_never_end_the_loop(targets: nat, i: usize)
    ensures
        next_step(targets, Step::Probe(i), Signal::ProbeDone) != Step::Stop,
{
}

} // verus!
