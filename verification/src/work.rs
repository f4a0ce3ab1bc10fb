use vstd::prelude::*;

use crate::mode::AllocMode;
use crate::mode::counted;
use crate::mode::effective_mode;

verus! {

/// A unit of work, seen through the only side of it this library observes:
/// the allocator requests it makes and the scopes it opens. A leaf is one
/// request to the backing allocator; `Then` runs two units in order;
/// `Allow`, `Deny` and `Forbid` run a unit inside the scope of the same
/// name, nested arbitrarily deep.
pub enum Work {
    /// A unit of work that touches the allocator not at all.
    Skip,
    /// One allocation request.
    Alloc,
    /// One reallocation request.
    Realloc,
    /// One deallocation request.
    Dealloc,
    /// The first unit, then (if it did not fail) the second.
    Then(Box<Work>, Box<Work>),
    /// The unit inside an allowing scope: its activity is not counted,
    /// unless an enclosing scope forbids allocation outright.
    Allow(Box<Work>),
    /// The unit inside a denying scope: it fails if any of its activity,
    /// outside nested allowing scopes, is counted.
    Deny(Box<Work>),
    /// The unit inside a forbidding scope: it fails if it has any activity
    /// at all, nested allowing scopes notwithstanding.
    Forbid(Box<Work>),
}

/// A delta of the three counters, as mathematical values:
/// (allocations, reallocations, deallocations).
pub type SpecDelta = (nat, nat, nat);

/// The delta with nothing counted.
pub open spec fn zero_delta() -> SpecDelta {
    (0nat, 0nat, 0nat)
}

/// Component-wise sum of two deltas.
pub open spec fn delta_sum(x: SpecDelta, y: SpecDelta) -> SpecDelta {
    ((x.0 + y.0) as nat, (x.1 + y.1) as nat, (x.2 + y.2) as nat)
}

/// One counted event under mode `m`: 1 where activity is counted, else 0.
pub open spec fn count_one(m: AllocMode) -> nat {
    if counted(m) { 1nat } else { 0nat }
}

/// What running a unit of work adds to the counters, paired with whether it
/// fails: `None` for a run that completes, `Some(d)` for one that fails
/// because a denying or forbidding scope within it measured the non-zero
/// delta `d` (the delta added by the part that ran is reported either way,
/// since the counters are never rolled back). A failure cuts the run short:
/// in `Then(a, b)`, `b` contributes nothing once `a` has failed.
pub open spec fn run_spec(m: AllocMode, w: Work) -> (SpecDelta, Option<SpecDelta>)
    decreases w,
{
    match w {
        Work::Skip => (zero_delta(), None),
        Work::Alloc => ((count_one(m), 0nat, 0nat), None),
        Work::Realloc => ((0nat, count_one(m), 0nat), None),
        Work::Dealloc => ((0nat, 0nat, count_one(m)), None),
        Work::Then(a, b) => {
            let (da, ea) = run_spec(m, *a);
            if ea is Some {
                (da, ea)
            } else {
                let (db, eb) = run_spec(m, *b);
                (delta_sum(da, db), eb)
            }
        },
        Work::Allow(b) => run_spec(effective_mode(m, AllocMode::Ignore), *b),
        Work::Deny(b) => judge(run_spec(effective_mode(m, AllocMode::Count), *b)),
        Work::Forbid(b) => judge(run_spec(effective_mode(m, AllocMode::CountAll), *b)),
    }
}

/// The verdict of an enforcing scope on the outcome of its unit of work: a
/// failure from within is passed through, and a completed run fails exactly
/// when its measured delta is non-zero in any component.
pub open spec fn judge(outcome: (SpecDelta, Option<SpecDelta>)) -> (SpecDelta, Option<SpecDelta>) {
    let (d, e) = outcome;
    if e is Some {
        (d, e)
    } else if d == zero_delta() {
        (d, None)
    } else {
        (d, Some(d))
    }
}

/// What a scope function does: run the unit of work under the effective
/// mode for the requested one, and judge the outcome unless the request was
/// to ignore activity (an allowing scope measures but never judges).
pub open spec fn scope_spec(current: AllocMode, requested: AllocMode, w: Work) -> (SpecDelta, Option<SpecDelta>) {
    let outcome = run_spec(effective_mode(current, requested), w);
    if requested is Ignore {
        outcome
    } else {
        judge(outcome)
    }
}

/// The number of allocator events in a unit of work, an upper bound on any
/// component of any delta its run can produce.
pub open spec fn event_count(w: Work) -> nat
    decreases w,
{
    match w {
        Work::Skip => 0nat,
        Work::Alloc => 1nat,
        Work::Realloc => 1nat,
        Work::Dealloc => 1nat,
        Work::Then(a, b) => (event_count(*a) + event_count(*b)) as nat,
        Work::Allow(b) => event_count(*b),
        Work::Deny(b) => event_count(*b),
        Work::Forbid(b) => event_count(*b),
    }
}

/// Whether a unit of work is a plain sequence of allocator events, opening
/// no scope of its own.
pub open spec fn events_only(w: Work) -> bool
    decreases w,
{
    match w {
        Work::Skip => true,
        Work::Alloc => true,
        Work::Realloc => true,
        Work::Dealloc => true,
        Work::Then(a, b) => events_only(*a) && events_only(*b),
        Work::Allow(b) => false,
        Work::Deny(b) => false,
        Work::Forbid(b) => false,
    }
}

/// Whether a unit of work opens no enforcing scope: it may allocate and
/// open allowing scopes freely, but contains no denying or forbidding
/// scope that could fail a run from within.
pub open spec fn enforce_free(w: Work) -> bool
    decreases w,
{
    match w {
        Work::Skip => true,
        Work::Alloc => true,
        Work::Realloc => true,
        Work::Dealloc => true,
        Work::Then(a, b) => enforce_free(*a) && enforce_free(*b),
        Work::Allow(b) => enforce_free(*b),
        Work::Deny(b) => false,
        Work::Forbid(b) => false,
    }
}

/// The multiset of allocator events in a unit of work, per kind: every
/// allocation, reallocation and deallocation it performs, at any depth.
pub open spec fn event_multiset(w: Work) -> SpecDelta
    decreases w,
{
    match w {
        Work::Skip => zero_delta(),
        Work::Alloc => (1nat, 0nat, 0nat),
        Work::Realloc => (0nat, 1nat, 0nat),
        Work::Dealloc => (0nat, 0nat, 1nat),
        Work::Then(a, b) => delta_sum(event_multiset(*a), event_multiset(*b)),
        Work::Allow(b) => event_multiset(*b),
        Work::Deny(b) => event_multiset(*b),
        Work::Forbid(b) => event_multiset(*b),
    }
}

/// The multiset of exposed allocator events in a unit of work: those not
/// sheltered by any allowing scope within it.
pub open spec fn exposed_multiset(w: Work) -> SpecDelta
    decreases w,
{
    match w {
        Work::Skip => zero_delta(),
        Work::Alloc => (1nat, 0nat, 0nat),
        Work::Realloc => (0nat, 1nat, 0nat),
        Work::Dealloc => (0nat, 0nat, 1nat),
        Work::Then(a, b) => delta_sum(exposed_multiset(*a), exposed_multiset(*b)),
        Work::Allow(b) => zero_delta(),
        Work::Deny(b) => exposed_multiset(*b),
        Work::Forbid(b) => exposed_multiset(*b),
    }
}

/// The number of nodes in a unit of work: a structural measure that
/// strictly shrinks from a unit to any unit nested within it.
pub open spec fn node_count(w: Work) -> nat
    decreases w,
{
    match w {
        Work::Skip => 1nat,
        Work::Alloc => 1nat,
        Work::Realloc => 1nat,
        Work::Dealloc => 1nat,
        Work::Then(a, b) => (1 + node_count(*a) + node_count(*b)) as nat,
        Work::Allow(b) => (1 + node_count(*b)) as nat,
        Work::Deny(b) => (1 + node_count(*b)) as nat,
        Work::Forbid(b) => (1 + node_count(*b)) as nat,
    }
}

/// Each component of the delta of a run is bounded by the number of
/// allocator events in the unit of work.
pub proof fn lemma_delta_bounded(m: AllocMode, w: Work)
    ensures
        run_spec(m, w).0.0 <= event_count(w),
        run_spec(m, w).0.1 <= event_count(w),
        run_spec(m, w).0.2 <= event_count(w),
    decreases w,
{
    match w {
        Work::Skip => {},
        Work::Alloc => {},
        Work::Realloc => {},
        Work::Dealloc => {},
        Work::Then(a, b) => {
            lemma_delta_bounded(m, *a);
            lemma_delta_bounded(m, *b);
        },
        Work::Allow(b) => {
            lemma_delta_bounded(effective_mode(m, AllocMode::Ignore), *b);
        },
        Work::Deny(b) => {
            lemma_delta_bounded(effective_mode(m, AllocMode::Count), *b);
        },
        Work::Forbid(b) => {
            lemma_delta_bounded(effective_mode(m, AllocMode::CountAll), *b);
        },
    }
}

} // verus!
