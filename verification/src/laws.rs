use vstd::prelude::*;

use crate::mode::AllocMode;
use crate::mode::counted;
use crate::mode::effective_mode;
use crate::work::SpecDelta;
use crate::work::Work;
use crate::work::enforce_free;
use crate::work::event_multiset;
use crate::work::events_only;
use crate::work::exposed_multiset;
use crate::work::run_spec;
use crate::work::scope_spec;
use crate::work::zero_delta;

verus! {

/// Any sequence of allocator events run under a mode that counts activity
/// is measured exactly: the delta equals the multiset of the calls, one
/// per event of each kind, and the run never fails of itself.
pub proof fn lemma_counted_delta_is_event_multiset(m: AllocMode, w: Work)
    requires
        counted(m),
        events_only(w),
    ensures
        run_spec(m, w) == (event_multiset(w), None::<SpecDelta>),
    decreases w,
{
    match w {
        Work::Then(a, b) => {
            lemma_counted_delta_is_event_multiset(m, *a);
            lemma_counted_delta_is_event_multiset(m, *b);
        },
        _ => {},
    }
}

/// A unit of work with no enforcing scope within it never fails, under any
/// mode: only a denying or forbidding scope can raise a violation.
pub proof fn lemma_enforce_free_never_fails(m: AllocMode, w: Work)
    requires
        enforce_free(w),
    ensures
        run_spec(m, w).1 is None,
    decreases w,
{
    match w {
        Work::Then(a, b) => {
            lemma_enforce_free_never_fails(m, *a);
            lemma_enforce_free_never_fails(m, *b);
        },
        Work::Allow(b) => {
            lemma_enforce_free_never_fails(effective_mode(m, AllocMode::Ignore), *b);
        },
        _ => {},
    }
}

/// An allowing scope never fails of itself, whatever the current mode and
/// however much the work within it allocates: for work free of enforcing
/// scopes, `allow_alloc` always succeeds.
pub proof fn lemma_allow_never_fails(m: AllocMode, w: Work)
    requires
        enforce_free(w),
    ensures
        scope_spec(m, AllocMode::Ignore, w).1 is None,
{
    lemma_enforce_free_never_fails(effective_mode(m, AllocMode::Ignore), w);
}

/// Under `Ignore`, work free of enforcing scopes adds nothing to the
/// counters and never fails.
pub proof fn lemma_ignore_counts_nothing(w: Work)
    requires
        enforce_free(w),
    ensures
        run_spec(AllocMode::Ignore, w) == (zero_delta(), None::<SpecDelta>),
    decreases w,
{
    match w {
        Work::Then(a, b) => {
            lemma_ignore_counts_nothing(*a);
            lemma_ignore_counts_nothing(*b);
        },
        Work::Allow(b) => {
            lemma_ignore_counts_nothing(*b);
        },
        _ => {},
    }
}

/// Under `Count`, work free of enforcing scopes is measured as exactly its
/// exposed events: what sits inside an allowing scope is suppressed, the
/// rest is counted one for one.
pub proof fn lemma_count_measures_exposed(w: Work)
    requires
        enforce_free(w),
    ensures
        run_spec(AllocMode::Count, w) == (exposed_multiset(w), None::<SpecDelta>),
    decreases w,
{
    match w {
        Work::Then(a, b) => {
            lemma_count_measures_exposed(*a);
            lemma_count_measures_exposed(*b);
        },
        Work::Allow(b) => {
            lemma_ignore_counts_nothing(*b);
        },
        _ => {},
    }
}

/// Under the sticky `CountAll`, work free of enforcing scopes is measured
/// as its full event multiset: allowing scopes within it suppress nothing.
pub proof fn lemma_count_all_measures_everything(w: Work)
    requires
        enforce_free(w),
    ensures
        run_spec(AllocMode::CountAll, w) == (event_multiset(w), None::<SpecDelta>),
    decreases w,
{
    match w {
        Work::Then(a, b) => {
            lemma_count_all_measures_everything(*a);
            lemma_count_all_measures_everything(*b);
        },
        Work::Allow(b) => {
            lemma_count_all_measures_everything(*b);
        },
        _ => {},
    }
}

/// A denying scope entered while the mode is not the sticky `CountAll`
/// fails if and only if the work within it — outside its nested allowing
/// scopes — performs at least one allocation, reallocation or
/// deallocation; and when it fails, it reports exactly those exposed
/// events.
pub proof fn lemma_deny_fails_iff_exposed(m: AllocMode, w: Work)
    requires
        enforce_free(w),
        m != AllocMode::CountAll,
    ensures
        scope_spec(m, AllocMode::Count, w).1 is Some <==> exposed_multiset(w) != zero_delta(),
        exposed_multiset(w) != zero_delta()
            ==> scope_spec(m, AllocMode::Count, w).1 == Some(exposed_multiset(w)),
{
    lemma_count_measures_exposed(w);
}

/// A forbidding scope fails if and only if the work within it performs any
/// allocator event at all, nested allowing scopes notwithstanding, from
/// any current mode; and when it fails, it reports exactly the full event
/// multiset.
pub proof fn lemma_forbid_fails_iff_any_event(m: AllocMode, w: Work)
    requires
        enforce_free(w),
    ensures
        scope_spec(m, AllocMode::CountAll, w).1 is Some <==> event_multiset(w) != zero_delta(),
        event_multiset(w) != zero_delta()
            ==> scope_spec(m, AllocMode::CountAll, w).1 == Some(event_multiset(w)),
{
    lemma_count_all_measures_everything(w);
}

} // verus!
