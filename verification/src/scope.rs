use vstd::prelude::*;

use crate::counter::AllocCounter;
use crate::counter::Counters;
use crate::counter::Guard;
use crate::mode::AllocMode;
use crate::mode::effective_mode;
use crate::work::SpecDelta;
use crate::work::Work;
use crate::work::event_count;
use crate::work::lemma_delta_bounded;
use crate::work::node_count;
use crate::work::run_spec;
use crate::work::scope_spec;
use crate::work::zero_delta;

verus! {

/// The failure an enforcing scope raises when its unit of work touched the
/// allocator: it carries the three offending counts verbatim, so the caller
/// can tell which class of operation broke the policy.
#[derive(PartialEq, Eq, Structural, Clone, Copy, Debug)]
pub struct AllocViolation {
    /// Allocations measured in the offending scope.
    pub allocations: usize,
    /// Reallocations measured in the offending scope.
    pub reallocations: usize,
    /// Deallocations measured in the offending scope.
    pub deallocations: usize,
}

impl AllocViolation {
    /// The carried counts, as a mathematical delta.
    pub open spec fn delta(self) -> SpecDelta {
        (self.allocations as nat, self.reallocations as nat, self.deallocations as nat)
    }
}

/// The verdict on a measured delta: under a mode that counts activity, a
/// non-zero delta (in any one of the three components) is a violation
/// carrying the delta; under `Ignore`, or on an all-zero delta, the unit of
/// work passes.
pub fn check_delta(mode: AllocMode, delta: Counters) -> (r: Result<(), AllocViolation>)
    ensures
        r is Err <==> (mode != AllocMode::Ignore && delta != (0usize, 0usize, 0usize)),
        r matches Err(v) ==> v.delta() == (delta.0 as nat, delta.1 as nat, delta.2 as nat),
{
    if mode != AllocMode::Ignore && !(delta.0 == 0 && delta.1 == 0 && delta.2 == 0) {
        Err(AllocViolation {
            allocations: delta.0,
            reallocations: delta.1,
            deallocations: delta.2,
        })
    } else {
        Ok(())
    }
}

/// Run a unit of work against the counting allocator: each allocator event
/// is recorded under the mode current when it happens, each nested scope
/// installs its mode on entry and restores the previous one on exit, and
/// the first enforcing scope whose measured delta is non-zero fails the
/// run. The outcome — counters advanced by exactly the delta of
/// `run_spec`, the mode left as it was found, failure exactly where
/// `run_spec` fails — is stated against that one spec semantics.
pub fn run_work(counter: &mut AllocCounter, work: &Work) -> (r: Result<(), AllocViolation>)
    requires
        old(counter).counters.0 + event_count(*work) <= usize::MAX,
        old(counter).counters.1 + event_count(*work) <= usize::MAX,
        old(counter).counters.2 + event_count(*work) <= usize::MAX,
    ensures
        ({
            let (d, e) = run_spec(old(counter).mode, *work);
            &&& final(counter).mode == old(counter).mode
            &&& final(counter).counters.0 == old(counter).counters.0 + d.0
            &&& final(counter).counters.1 == old(counter).counters.1 + d.1
            &&& final(counter).counters.2 == old(counter).counters.2 + d.2
            &&& match r {
                Ok(u) => e is None,
                Err(v) => e == Some(v.delta()),
            }
        }),
    decreases node_count(*work), 0int,
{
    match work {
        Work::Skip => Ok(()),
        Work::Alloc => {
            counter.record_alloc();
            Ok(())
        },
        Work::Realloc => {
            counter.record_realloc();
            Ok(())
        },
        Work::Dealloc => {
            counter.record_dealloc();
            Ok(())
        },
        Work::Then(a, b) => {
            proof {
                lemma_delta_bounded(counter.mode, **a);
            }
            let ra = run_work(counter, a);
            match ra {
                Err(v) => Err(v),
                Ok(u) => run_work(counter, b),
            }
        },
        Work::Allow(b) => guard_fn(counter, AllocMode::Ignore, b),
        Work::Deny(b) => guard_fn(counter, AllocMode::Count, b),
        Work::Forbid(b) => guard_fn(counter, AllocMode::CountAll, b),
    }
}

/// Measure the allocation activity of a unit of work: snapshot the counters
/// immediately before running it and immediately after, and return the
/// difference alongside the run's outcome. No mode is installed; the work
/// runs under whatever mode is current, so this observes without enforcing.
pub fn count_alloc(counter: &mut AllocCounter, work: &Work) -> (r: (Counters, Result<(), AllocViolation>))
    requires
        old(counter).counters.0 + event_count(*work) <= usize::MAX,
        old(counter).counters.1 + event_count(*work) <= usize::MAX,
        old(counter).counters.2 + event_count(*work) <= usize::MAX,
    ensures
        ({
            let (d, e) = run_spec(old(counter).mode, *work);
            &&& final(counter).mode == old(counter).mode
            &&& final(counter).counters.0 == old(counter).counters.0 + d.0
            &&& final(counter).counters.1 == old(counter).counters.1 + d.1
            &&& final(counter).counters.2 == old(counter).counters.2 + d.2
            &&& (r.0.0 as nat, r.0.1 as nat, r.0.2 as nat) == d
            &&& match r.1 {
                Ok(u) => e is None,
                Err(v) => e == Some(v.delta()),
            }
        }),
    decreases node_count(*work), 1int,
{
    let before = counter.counters;
    let r = run_work(counter, work);
    let after = counter.counters;
    ((after.0 - before.0, after.1 - before.1, after.2 - before.2), r)
}

/// Run a unit of work inside a scope that requests `mode`: install the
/// effective mode, measure the work, restore the previous mode on every
/// path, and — unless the request was `Ignore` — fail on a non-zero delta,
/// carrying the three counts. A failure from within the work is passed
/// through unjudged, after the mode is restored.
pub fn guard_fn(counter: &mut AllocCounter, mode: AllocMode, work: &Work) -> (r: Result<(), AllocViolation>)
    requires
        old(counter).counters.0 + event_count(*work) <= usize::MAX,
        old(counter).counters.1 + event_count(*work) <= usize::MAX,
        old(counter).counters.2 + event_count(*work) <= usize::MAX,
    ensures
        ({
            let (d, e) = scope_spec(old(counter).mode, mode, *work);
            &&& final(counter).mode == old(counter).mode
            &&& final(counter).counters.0 == old(counter).counters.0 + d.0
            &&& final(counter).counters.1 == old(counter).counters.1 + d.1
            &&& final(counter).counters.2 == old(counter).counters.2 + d.2
            &&& match r {
                Ok(u) => e is None,
                Err(v) => e == Some(v.delta()),
            }
        }),
    decreases node_count(*work), 2int,
{
    let g = Guard::new(counter, mode);
    let (delta, r) = count_alloc(counter, work);
    g.restore(counter);
    match r {
        Err(v) => Err(v),
        Ok(u) => check_delta(mode, delta),
    }
}

/// Run a unit of work with allocation activity allowed: the scope requests
/// `Ignore`, so nothing the work does to the allocator is counted or judged
/// here (an enclosing forbidding scope still counts it, but the judging is
/// that scope's). The only failure this returns is one raised by an
/// enforcing scope nested inside the work itself.
pub fn allow_alloc(counter: &mut AllocCounter, work: &Work) -> (r: Result<(), AllocViolation>)
    requires
        old(counter).counters.0 + event_count(*work) <= usize::MAX,
        old(counter).counters.1 + event_count(*work) <= usize::MAX,
        old(counter).counters.2 + event_count(*work) <= usize::MAX,
    ensures
        ({
            let (d, e) = scope_spec(old(counter).mode, AllocMode::Ignore, *work);
            &&& final(counter).mode == old(counter).mode
            &&& final(counter).counters.0 == old(counter).counters.0 + d.0
            &&& final(counter).counters.1 == old(counter).counters.1 + d.1
            &&& final(counter).counters.2 == old(counter).counters.2 + d.2
            &&& match r {
                Ok(u) => e is None,
                Err(v) => e == Some(v.delta()),
            }
        }),
{
    guard_fn(counter, AllocMode::Ignore, work)
}

/// Run a unit of work with allocation activity denied: any allocation,
/// reallocation or deallocation it performs outside a nested allowing
/// scope fails the run with the three measured counts.
pub fn deny_alloc(counter: &mut AllocCounter, work: &Work) -> (r: Result<(), AllocViolation>)
    requires
        old(counter).counters.0 + event_count(*work) <= usize::MAX,
        old(counter).counters.1 + event_count(*work) <= usize::MAX,
        old(counter).counters.2 + event_count(*work) <= usize::MAX,
    ensures
        ({
            let (d, e) = scope_spec(old(counter).mode, AllocMode::Count, *work);
            &&& final(counter).mode == old(counter).mode
            &&& final(counter).counters.0 == old(counter).counters.0 + d.0
            &&& final(counter).counters.1 == old(counter).counters.1 + d.1
            &&& final(counter).counters.2 == old(counter).counters.2 + d.2
            &&& match r {
                Ok(u) => e is None,
                Err(v) => e == Some(v.delta()),
            }
        }),
{
    guard_fn(counter, AllocMode::Count, work)
}

/// Run a unit of work with allocation activity forbidden outright: the
/// sticky `CountAll` mode is installed, so nested allowing scopes at any
/// depth have no suppressing effect, and any activity at all fails the run
/// with the three measured counts.
pub fn forbid_alloc(counter: &mut AllocCounter, work: &Work) -> (r: Result<(), AllocViolation>)
    requires
        old(counter).counters.0 + event_count(*work) <= usize::MAX,
        old(counter).counters.1 + event_count(*work) <= usize::MAX,
        old(counter).counters.2 + event_count(*work) <= usize::MAX,
    ensures
        ({
            let (d, e) = scope_spec(old(counter).mode, AllocMode::CountAll, *work);
            &&& final(counter).mode == old(counter).mode
            &&& final(counter).counters.0 == old(counter).counters.0 + d.0
            &&& final(counter).counters.1 == old(counter).counters.1 + d.1
            &&& final(counter).counters.2 == old(counter).counters.2 + d.2
            &&& match r {
                Ok(u) => e is None,
                Err(v) => e == Some(v.delta()),
            }
        }),
{
    guard_fn(counter, AllocMode::CountAll, work)
}

} // verus!
