use alloc_counter::AllocCounter;
use alloc_counter::AllocMode;
use alloc_counter::AllocViolation;
use alloc_counter::Guard;
use alloc_counter::Work;
use alloc_counter::allow_alloc;
use alloc_counter::check_delta;
use alloc_counter::count_alloc;
use alloc_counter::deny_alloc;
use alloc_counter::forbid_alloc;
use alloc_counter::guard_fn;
use alloc_counter::run_work;

fn then(a: Work, b: Work) -> Work {
    Work::Then(Box::new(a), Box::new(b))
}

fn violation(a: usize, r: usize, d: usize) -> AllocViolation {
    AllocViolation { allocations: a, reallocations: r, deallocations: d }
}

#[test]
fn fresh_state_defaults() {
    let c = AllocCounter::new();
    assert_eq!(c.mode, AllocMode::Count);
    assert_eq!(c.counters, (0, 0, 0));
}

#[test]
fn recording_respects_mode() {
    let mut c = AllocCounter::new();
    c.record_alloc();
    c.record_realloc();
    c.record_dealloc();
    assert_eq!(c.counters, (1, 1, 1));
    c.mode = AllocMode::Ignore;
    c.record_alloc();
    c.record_realloc();
    c.record_dealloc();
    assert_eq!(c.counters, (1, 1, 1));
    c.mode = AllocMode::CountAll;
    c.record_dealloc();
    assert_eq!(c.counters, (1, 1, 2));
}

#[test]
fn count_alloc_measures_each_kind_once() {
    // An allocation, a reallocation, and the deallocation when the value is
    // dropped: measured as exactly one of each.
    let mut c = AllocCounter::new();
    let w = then(Work::Alloc, then(Work::Realloc, Work::Dealloc));
    let (delta, r) = count_alloc(&mut c, &w);
    assert_eq!(delta, (1, 1, 1));
    assert_eq!(r, Ok(()));
    assert_eq!(c.counters, (1, 1, 1));
    assert_eq!(c.mode, AllocMode::Count);
}

#[test]
fn count_alloc_observes_without_judging() {
    let mut c = AllocCounter::new();
    let (delta, r) = count_alloc(&mut c, &Work::Alloc);
    assert_eq!(delta, (1, 0, 0));
    assert_eq!(r, Ok(()));
}

#[test]
fn deny_alloc_fails_on_one_allocation() {
    let mut c = AllocCounter::new();
    let r = deny_alloc(&mut c, &Work::Alloc);
    assert_eq!(r, Err(violation(1, 0, 0)));
    assert_eq!(c.mode, AllocMode::Count);
}

#[test]
fn deny_alloc_fails_on_dealloc_alone() {
    // The three components are judged independently: zero allocations with
    // one deallocation still violates the policy.
    let mut c = AllocCounter::new();
    let r = deny_alloc(&mut c, &Work::Dealloc);
    assert_eq!(r, Err(violation(0, 0, 1)));
}

#[test]
fn deny_alloc_fails_on_realloc_alone() {
    let mut c = AllocCounter::new();
    let r = deny_alloc(&mut c, &Work::Realloc);
    assert_eq!(r, Err(violation(0, 1, 0)));
}

#[test]
fn deny_alloc_passes_quiet_work() {
    let mut c = AllocCounter::new();
    let r = deny_alloc(&mut c, &Work::Skip);
    assert_eq!(r, Ok(()));
}

#[test]
fn allow_alloc_never_fails_however_much_is_allocated() {
    let mut c = AllocCounter::new();
    let mut w = Work::Alloc;
    for _ in 0..20 {
        w = then(Work::Alloc, then(Work::Realloc, then(Work::Dealloc, w)));
    }
    let r = allow_alloc(&mut c, &w);
    assert_eq!(r, Ok(()));
    // Nothing was counted either: the scope ran under Ignore.
    assert_eq!(c.counters, (0, 0, 0));
}

#[test]
fn deny_of_nested_allow_succeeds() {
    // The nested allowing scope suppresses the allocation inside a denying
    // one.
    let mut c = AllocCounter::new();
    let w = Work::Allow(Box::new(Work::Alloc));
    let r = deny_alloc(&mut c, &w);
    assert_eq!(r, Ok(()));
    assert_eq!(c.counters, (0, 0, 0));
}

#[test]
fn deny_counts_only_exposed_events() {
    // One exposed allocation beside a sheltered pile: only the exposed one
    // is reported.
    let mut c = AllocCounter::new();
    let sheltered = Work::Allow(Box::new(then(Work::Alloc, then(Work::Realloc, Work::Dealloc))));
    let w = then(sheltered, Work::Alloc);
    let r = deny_alloc(&mut c, &w);
    assert_eq!(r, Err(violation(1, 0, 0)));
}

#[test]
fn forbid_of_nested_allow_still_fails() {
    // The sticky CountAll mode makes the nested allowing scope powerless.
    let mut c = AllocCounter::new();
    let w = Work::Allow(Box::new(Work::Alloc));
    let r = forbid_alloc(&mut c, &w);
    assert_eq!(r, Err(violation(1, 0, 0)));
    assert_eq!(c.mode, AllocMode::Count);
}

#[test]
fn forbid_counts_every_event_at_any_depth() {
    let mut c = AllocCounter::new();
    let w = then(
        Work::Allow(Box::new(Work::Allow(Box::new(Work::Realloc)))),
        then(Work::Alloc, Work::Dealloc),
    );
    let r = forbid_alloc(&mut c, &w);
    assert_eq!(r, Err(violation(1, 1, 1)));
}

#[test]
fn forbid_passes_quiet_work() {
    let mut c = AllocCounter::new();
    let w = Work::Allow(Box::new(Work::Skip));
    let r = forbid_alloc(&mut c, &w);
    assert_eq!(r, Ok(()));
}

#[test]
fn mode_restored_after_mixed_nesting() {
    // A stack of scopes with mixed modes, some failing: the mode after the
    // outermost scope exits equals the mode before it was entered.
    let mut c = AllocCounter::new();
    let deep = Work::Deny(Box::new(then(
        Work::Allow(Box::new(Work::Alloc)),
        Work::Forbid(Box::new(Work::Allow(Box::new(Work::Dealloc)))),
    )));
    c.mode = AllocMode::Ignore;
    let r = run_work(&mut c, &deep);
    assert_eq!(r, Err(violation(0, 0, 1)));
    assert_eq!(c.mode, AllocMode::Ignore);

    c.mode = AllocMode::Count;
    let r2 = guard_fn(&mut c, AllocMode::CountAll, &deep);
    assert!(r2.is_err());
    assert_eq!(c.mode, AllocMode::Count);
}

#[test]
fn failure_propagates_after_restoration() {
    // An inner violation cuts the run short: what follows it never runs,
    // and the failure is passed through unjudged.
    let mut c = AllocCounter::new();
    let w = then(Work::Deny(Box::new(Work::Alloc)), Work::Realloc);
    let r = run_work(&mut c, &w);
    assert_eq!(r, Err(violation(1, 0, 0)));
    assert_eq!(c.counters, (1, 0, 0));
    assert_eq!(c.mode, AllocMode::Count);
}

#[test]
fn count_all_is_sticky_for_guards() {
    let mut c = AllocCounter::new();
    c.mode = AllocMode::CountAll;
    let g = Guard::new(&mut c, AllocMode::Ignore);
    assert_eq!(c.mode, AllocMode::CountAll);
    assert_eq!(g.prev, AllocMode::CountAll);
    g.restore(&mut c);
    assert_eq!(c.mode, AllocMode::CountAll);
}

#[test]
fn guard_installs_and_restores() {
    let mut c = AllocCounter::new();
    let g = Guard::new(&mut c, AllocMode::Ignore);
    assert_eq!(c.mode, AllocMode::Ignore);
    assert_eq!(g.prev, AllocMode::Count);
    g.restore(&mut c);
    assert_eq!(c.mode, AllocMode::Count);
}

#[test]
fn check_delta_judges_independently() {
    assert_eq!(check_delta(AllocMode::Count, (0, 0, 0)), Ok(()));
    assert_eq!(check_delta(AllocMode::Ignore, (5, 0, 2)), Ok(()));
    assert_eq!(check_delta(AllocMode::Count, (0, 2, 0)), Err(violation(0, 2, 0)));
    assert_eq!(check_delta(AllocMode::CountAll, (0, 0, 3)), Err(violation(0, 0, 3)));
}
