use vstd::prelude::*;

use crate::counter::AllocCounter;
use crate::counter::Counters;
use crate::counter::Guard;
use crate::mode::AllocMode;
use crate::mode::effective_mode;
use crate::scope::AllocViolation;
use crate::scope::check_delta;
use crate::scope::count_alloc;
use crate::work::Work;
use crate::work::event_count;
use crate::work::lemma_delta_bounded;
use crate::work::run_spec;
use crate::work::zero_delta;

verus! {

/// What driving a suspendable computation one step yields: either it
/// suspended with more steps to come, or it completed, carrying the
/// accumulated activity of all its steps.
#[derive(PartialEq, Eq, Clone, Copy, Debug)]
pub enum StepPoll {
    /// The computation suspended; it has further steps.
    Pending,
    /// The computation completed; the total measured across its steps.
    Ready(Counters),
}

/// A measuring wrapper around a suspendable computation. The computation is
/// an explicit state machine: a sequence of resumption steps, each a unit
/// of work, the last of which completes it. Each drive of `poll` measures
/// exactly one step and adds its delta to the running total, so allocator
/// activity on the thread while the computation sits suspended between
/// steps is never charged to it.
pub struct AsyncGuard {
    /// Deltas summed over the steps driven so far.
    pub counts: Counters,
    /// The resumption steps of the wrapped computation, in order.
    pub steps: Vec<Work>,
    /// How many steps have been driven.
    pub pos: usize,
}

/// Wrap a suspendable computation — its resumption steps, in order — for
/// step-wise measurement, with nothing accumulated yet.
pub fn count_alloc_future(steps: Vec<Work>) -> (g: AsyncGuard)
    ensures
        g.counts == (0usize, 0usize, 0usize),
        g.steps == steps,
        g.pos == 0,
{
    AsyncGuard { counts: (0, 0, 0), steps, pos: 0 }
}

impl AsyncGuard {
    /// The next resumption step to drive.
    pub open spec fn next_step(self) -> Work {
        self.steps@[self.pos as int]
    }

    /// Whether the wrapped computation still has steps to drive.
    pub open spec fn in_progress(self) -> bool {
        self.pos < self.steps@.len()
    }

    /// Drive the wrapped computation by one resumption step: measure the
    /// activity of exactly that step under the current mode, add its delta
    /// to the running total, and report completion — with the total — when
    /// it was the last step. A failure raised by an enforcing scope inside
    /// the step is passed through, the step's partial delta still
    /// accumulated and the step consumed.
    pub fn poll(&mut self, counter: &mut AllocCounter) -> (r: Result<StepPoll, AllocViolation>)
        requires
            old(self).in_progress(),
            old(counter).counters.0 + event_count(old(self).next_step()) <= usize::MAX,
            old(counter).counters.1 + event_count(old(self).next_step()) <= usize::MAX,
            old(counter).counters.2 + event_count(old(self).next_step()) <= usize::MAX,
            old(self).counts.0 + event_count(old(self).next_step()) <= usize::MAX,
            old(self).counts.1 + event_count(old(self).next_step()) <= usize::MAX,
            old(self).counts.2 + event_count(old(self).next_step()) <= usize::MAX,
        ensures
            ({
                let (d, e) = run_spec(old(counter).mode, old(self).next_step());
                &&& final(counter).mode == old(counter).mode
                &&& final(counter).counters.0 == old(counter).counters.0 + d.0
                &&& final(counter).counters.1 == old(counter).counters.1 + d.1
                &&& final(counter).counters.2 == old(counter).counters.2 + d.2
                &&& final(self).steps == old(self).steps
                &&& final(self).pos == old(self).pos + 1
                &&& final(self).counts.0 == old(self).counts.0 + d.0
                &&& final(self).counts.1 == old(self).counts.1 + d.1
                &&& final(self).counts.2 == old(self).counts.2 + d.2
                &&& match r {
                    Ok(StepPoll::Pending) => e is None && old(self).pos + 1 < old(self).steps@.len(),
                    Ok(StepPoll::Ready(t)) => e is None && old(self).pos + 1 == old(self).steps@.len()
                        && t == final(self).counts,
                    Err(v) => e == Some(v.delta()),
                }
            }),
    {
        let n = self.steps.len();
        proof {
            lemma_delta_bounded(counter.mode, self.steps@[self.pos as int]);
        }
        let (delta, r) = count_alloc(counter, &self.steps[self.pos]);
        self.counts.0 = self.counts.0 + delta.0;
        self.counts.1 = self.counts.1 + delta.1;
        self.counts.2 = self.counts.2 + delta.2;
        self.pos = self.pos + 1;
        match r {
            Err(v) => Err(v),
            Ok(u) => {
                if self.pos == n {
                    Ok(StepPoll::Ready(self.counts))
                } else {
                    Ok(StepPoll::Pending)
                }
            },
        }
    }
}

/// A scope around a suspendable computation. The requested mode is
/// installed afresh for each resumption step and restored as soon as the
/// step suspends or completes — it is never held across a suspension, where
/// unrelated work may run on the thread — and the non-zero-delta judgment
/// of the enforcing scopes is applied, on completion, to the total
/// accumulated across all steps.
pub struct GuardFuture {
    /// The mode each resumption step runs under.
    pub mode: AllocMode,
    /// The measuring wrapper around the computation.
    pub guard: AsyncGuard,
}

/// Scope a suspendable computation — its resumption steps, in order — under
/// the requested mode.
pub fn guard_future(mode: AllocMode, steps: Vec<Work>) -> (g: GuardFuture)
    ensures
        g.mode == mode,
        g.guard.counts == (0usize, 0usize, 0usize),
        g.guard.steps == steps,
        g.guard.pos == 0,
{
    GuardFuture { mode, guard: count_alloc_future(steps) }
}

/// Scope a suspendable computation with allocation activity allowed.
pub fn allow_alloc_future(steps: Vec<Work>) -> (g: GuardFuture)
    ensures
        g.mode == AllocMode::Ignore,
        g.guard.counts == (0usize, 0usize, 0usize),
        g.guard.steps == steps,
        g.guard.pos == 0,
{
    guard_future(AllocMode::Ignore, steps)
}

/// Scope a suspendable computation with allocation activity denied, as
/// `deny_alloc` does for a synchronous unit of work.
pub fn deny_alloc_future(steps: Vec<Work>) -> (g: GuardFuture)
    ensures
        g.mode == AllocMode::Count,
        g.guard.counts == (0usize, 0usize, 0usize),
        g.guard.steps == steps,
        g.guard.pos == 0,
{
    guard_future(AllocMode::Count, steps)
}

/// Scope a suspendable computation with allocation activity forbidden
/// outright, as `forbid_alloc` does for a synchronous unit of work.
pub fn forbid_alloc_future(steps: Vec<Work>) -> (g: GuardFuture)
    ensures
        g.mode == AllocMode::CountAll,
        g.guard.counts == (0usize, 0usize, 0usize),
        g.guard.steps == steps,
        g.guard.pos == 0,
{
    guard_future(AllocMode::CountAll, steps)
}

impl GuardFuture {
    /// Drive the scoped computation by one resumption step: install the
    /// scope's mode, drive the step, restore the prior mode, and on the
    /// completing step judge the accumulated total — a non-zero total under
    /// a mode other than `Ignore` fails with the three counts. A failure
    /// raised inside the step is passed through after the mode is restored.
    pub fn poll(&mut self, counter: &mut AllocCounter) -> (r: Result<StepPoll, AllocViolation>)
        requires
            old(self).guard.in_progress(),
            old(counter).counters.0 + event_count(old(self).guard.next_step()) <= usize::MAX,
            old(counter).counters.1 + event_count(old(self).guard.next_step()) <= usize::MAX,
            old(counter).counters.2 + event_count(old(self).guard.next_step()) <= usize::MAX,
            old(self).guard.counts.0 + event_count(old(self).guard.next_step()) <= usize::MAX,
            old(self).guard.counts.1 + event_count(old(self).guard.next_step()) <= usize::MAX,
            old(self).guard.counts.2 + event_count(old(self).guard.next_step()) <= usize::MAX,
        ensures
            ({
                let (d, e) = run_spec(
                    effective_mode(old(counter).mode, old(self).mode),
                    old(self).guard.next_step(),
                );
                &&& final(counter).mode == old(counter).mode
                &&& final(counter).counters.0 == old(counter).counters.0 + d.0
                &&& final(counter).counters.1 == old(counter).counters.1 + d.1
                &&& final(counter).counters.2 == old(counter).counters.2 + d.2
                &&& final(self).mode == old(self).mode
                &&& final(self).guard.steps == old(self).guard.steps
                &&& final(self).guard.pos == old(self).guard.pos + 1
                &&& final(self).guard.counts.0 == old(self).guard.counts.0 + d.0
                &&& final(self).guard.counts.1 == old(self).guard.counts.1 + d.1
                &&& final(self).guard.counts.2 == old(self).guard.counts.2 + d.2
                &&& match r {
                    Ok(StepPoll::Pending) => e is None
                        && old(self).guard.pos + 1 < old(self).guard.steps@.len(),
                    Ok(StepPoll::Ready(t)) => e is None
                        && old(self).guard.pos + 1 == old(self).guard.steps@.len()
                        && t == final(self).guard.counts
                        && (old(self).mode is Ignore || t == (0usize, 0usize, 0usize)),
                    Err(v) => e == Some(v.delta())
                        || (e is None
                            && old(self).guard.pos + 1 == old(self).guard.steps@.len()
                            && old(self).mode !is Ignore
                            && v.delta() == (
                                final(self).guard.counts.0 as nat,
                                final(self).guard.counts.1 as nat,
                                final(self).guard.counts.2 as nat,
                            )
                            && v.delta() != zero_delta()),
                }
            }),
    {
        let g = Guard::new(counter, self.mode);
        let r = self.guard.poll(counter);
        g.restore(counter);
        match r {
            Err(v) => Err(v),
            Ok(StepPoll::Pending) => Ok(StepPoll::Pending),
            Ok(StepPoll::Ready(total)) => {
                match check_delta(self.mode, total) {
                    Ok(u) => Ok(StepPoll::Ready(total)),
                    Err(v) => Err(v),
                }
            },
        }
    }
}

} // verus!
