//! An instrumented view of heap allocation activity.
//!
//! The library keeps, per thread of execution, a running count of
//! allocations, reallocations and deallocations, together with a mode that
//! decides whether activity is currently counted. Scoped entry points let a
//! caller declare "this unit of work must not allocate" (`deny_alloc`,
//! `forbid_alloc`), exempt a nested unit from an enclosing prohibition
//! (`allow_alloc`), or simply measure a unit's activity (`count_alloc`).
//! Suspendable computations are measured step by step, so that activity on
//! the same thread while a computation is suspended is not charged to it.

mod counter;
mod future;
mod laws;
mod mode;
mod scope;
mod work;

pub use counter::AllocCounter;
pub use counter::Counters;
pub use counter::Guard;
pub use future::AsyncGuard;
pub use future::GuardFuture;
pub use future::StepPoll;
pub use future::allow_alloc_future;
pub use future::count_alloc_future;
pub use future::deny_alloc_future;
pub use future::forbid_alloc_future;
pub use future::guard_future;
pub use laws::lemma_allow_never_fails;
pub use laws::lemma_count_all_measures_everything;
pub use laws::lemma_count_measures_exposed;
pub use laws::lemma_counted_delta_is_event_multiset;
pub use laws::lemma_deny_fails_iff_exposed;
pub use laws::lemma_enforce_free_never_fails;
pub use laws::lemma_forbid_fails_iff_any_event;
pub use laws::lemma_ignore_counts_nothing;
pub use mode::AllocMode;
pub use mode::counted;
pub use mode::effective_mode;
pub use scope::AllocViolation;
pub use scope::allow_alloc;
pub use scope::check_delta;
pub use scope::count_alloc;
pub use scope::deny_alloc;
pub use scope::forbid_alloc;
pub use scope::guard_fn;
pub use scope::run_work;
pub use work::SpecDelta;
pub use work::Work;
pub use work::count_one;
pub use work::delta_sum;
pub use work::enforce_free;
pub use work::event_count;
pub use work::event_multiset;
pub use work::events_only;
pub use work::exposed_multiset;
pub use work::judge;
pub use work::lemma_delta_bounded;
pub use work::node_count;
pub use work::run_spec;
pub use work::scope_spec;
pub use work::zero_delta;
