//! The per-guild "manual transition in progress" flag.
use vstd::prelude::*;

verus! {

/// Set while a manual operation (a skip, a rewind) owns the right to start the
/// next track; automatic completion handling stands aside while it is set.
pub struct TransitionFlag {
    held: bool,
}

impl View for TransitionFlag {
    type V = bool;

    closed spec fn view(&self) -> bool {
        self.held
    }
}

/// The flag after an acquire: set, whether or not it was set before.
pub open spec fn acquired(held: bool) -> bool {
    true
}

/// The flag after a release: clear.
pub open spec fn released(held: bool) -> bool {
    false
}

/// Proof that the flag was set by `acquire`; handing it back to `release`
/// clears the flag. It is not a lock: acquiring a held flag never waits.
pub struct ManualTransitionGuard {
    _private: (),
}

impl TransitionFlag {
    /// A cleared flag.
    pub fn new() -> (r: TransitionFlag)
        ensures
            !r@,
    {
        TransitionFlag { held: false }
    }

    pub fn is_held(&self) -> (r: bool)
        ensures
            r == self@,
    {
        self.held
    }
}

impl ManualTransitionGuard {
    /// Sets the flag, whether or not it was already set, and returns the
    /// guard that clears it again.
    pub fn acquire(flag: &mut TransitionFlag) -> (r: ManualTransitionGuard)
        ensures
            final(flag)@ == acquired(old(flag)@),
    {
        flag.held = true;
        ManualTransitionGuard { _private: () }
    }

    /// Clears the flag.
    pub fn release(self, flag: &mut TransitionFlag)
        ensures
            final(flag)@ == released(old(flag)@),
    {
        flag.held = false;
    }
}

/// Acquiring and releasing twice in a row leaves the flag clear, and
/// acquiring a flag that is already held simply leaves it held: acquiring
/// never waits on the holder.
pub proof fn law_guard_cycles(held: bool)
    ensures
        !released(acquired(released(acquired(held)))),
        acquired(acquired(held)),
{
}

} // verus!
