use vstd::prelude::*;

use crate::mode::AllocMode;
use crate::mode::counted;
use crate::mode::effective_mode;

verus! {

/// A triple of counts: allocations, reallocations, and deallocations.
pub type Counters = (usize, usize, usize);

/// The per-thread instrumentation state: the current enforcement mode and
/// the running counters. A fresh thread starts in `AllocMode::Count` with
/// all counters at zero. The counters only ever grow; deltas are taken by
/// subtracting two snapshots.
///
/// The backing allocator that actually services requests is an external
/// collaborator: a caller intercepting heap operations records each one
/// here (before or alongside delegating it), and passes the backing
/// allocator's result through unchanged, so a record is made even for a
/// request the backing allocator fails to satisfy.
#[derive(Clone, Copy, Debug)]
pub struct AllocCounter {
    /// The current enforcement mode of this thread.
    pub mode: AllocMode,
    /// The running counts of operations observed on this thread.
    pub counters: Counters,
}

impl AllocCounter {
    /// The state of a fresh thread: counting, with nothing counted yet.
    pub fn new() -> (c: AllocCounter)
        ensures
            c.mode == AllocMode::Count,
            c.counters == (0usize, 0usize, 0usize),
    {
        AllocCounter { mode: AllocMode::Count, counters: (0, 0, 0) }
    }

    /// Record an allocation request: one is added to the allocation count
    /// exactly when the current mode counts activity.
    pub fn record_alloc(&mut self)
        requires
            old(self).counters.0 < usize::MAX,
        ensures
            final(self).mode == old(self).mode,
            final(self).counters.0 == old(self).counters.0 + (if counted(old(self).mode) { 1int } else { 0int }),
            final(self).counters.1 == old(self).counters.1,
            final(self).counters.2 == old(self).counters.2,
    {
        if self.mode != AllocMode::Ignore {
            self.counters.0 = self.counters.0 + 1;
        }
    }

    /// Record a reallocation request: one is added to the reallocation
    /// count exactly when the current mode counts activity.
    pub fn record_realloc(&mut self)
        requires
            old(self).counters.1 < usize::MAX,
        ensures
            final(self).mode == old(self).mode,
            final(self).counters.0 == old(self).counters.0,
            final(self).counters.1 == old(self).counters.1 + (if counted(old(self).mode) { 1int } else { 0int }),
            final(self).counters.2 == old(self).counters.2,
    {
        if self.mode != AllocMode::Ignore {
            self.counters.1 = self.counters.1 + 1;
        }
    }

    /// Record a deallocation request: one is added to the deallocation
    /// count exactly when the current mode counts activity.
    pub fn record_dealloc(&mut self)
        requires
            old(self).counters.2 < usize::MAX,
        ensures
            final(self).mode == old(self).mode,
            final(self).counters.0 == old(self).counters.0,
            final(self).counters.1 == old(self).counters.1,
            final(self).counters.2 == old(self).counters.2 + (if counted(old(self).mode) { 1int } else { 0int }),
    {
        if self.mode != AllocMode::Ignore {
            self.counters.2 = self.counters.2 + 1;
        }
    }
}

/// A scope guard: it holds the mode to restore when the guarded unit of
/// work is done. Constructing one installs the effective mode for the
/// requested one; `restore` puts the previous mode back. Verified code has
/// no hidden exit paths, so the construct/restore pair brackets the guarded
/// work on every path through it.
pub struct Guard {
    /// The mode that was current when the guard was created, to be
    /// reinstalled when the guarded scope ends.
    pub prev: AllocMode,
}

impl Guard {
    /// Install the mode a scope requesting `mode` runs under, remembering
    /// the current mode for restoration. Under a sticky `CountAll` the
    /// request is ignored and the mode stays `CountAll`.
    pub fn new(counter: &mut AllocCounter, mode: AllocMode) -> (g: Guard)
        ensures
            g.prev == old(counter).mode,
            final(counter).mode == effective_mode(old(counter).mode, mode),
            final(counter).counters == old(counter).counters,
    {
        if counter.mode != AllocMode::CountAll {
            let prev = counter.mode;
            counter.mode = mode;
            Guard { prev }
        } else {
            Guard { prev: AllocMode::CountAll }
        }
    }

    /// Reinstall the mode that was current when this guard was created.
    pub fn restore(self, counter: &mut AllocCounter)
        ensures
            final(counter).mode == self.prev,
            final(counter).counters == old(counter).counters,
    {
        counter.mode = self.prev;
    }
}

} // verus!
