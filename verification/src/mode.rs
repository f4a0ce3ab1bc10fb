use vstd::prelude::*;

verus! {

/// How allocation activity on the current thread is treated.
#[derive(PartialEq, Eq, Structural, Clone, Copy, Debug)]
pub enum AllocMode {
    /// Do not count allocation activity (unless an enclosing scope forbids it).
    Ignore,
    /// Count allocation activity. This is the default for a fresh thread.
    Count,
    /// Count all allocation activity, even where a nested scope asks to
    /// ignore it.
    CountAll,
}

/// Whether allocation events are recorded under mode `m`.
pub open spec fn counted(m: AllocMode) -> bool {
    m != AllocMode::Ignore
}

/// The mode a scope runs under when it requests `requested` while the
/// current mode is `current`: `CountAll` is sticky and cannot be overridden
/// by a nested scope; any other current mode is simply replaced.
pub open spec fn effective_mode(current: AllocMode, requested: AllocMode) -> AllocMode {
    if current is CountAll {
        AllocMode::CountAll
    } else {
        requested
    }
}

} // verus!
