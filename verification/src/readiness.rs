//! The shared readiness flag: a one-way latch that starts out false and,
//! once set, never reverts for the lifetime of one supervision session.

use vstd::prelude::*;

verus! {

/// "Is the child ready to accept work." Created false at supervisor start;
/// set true by whichever of the stream watcher or the timeout guard first
/// detects or declares readiness; never reset.
pub struct ReadinessState {
    ready: bool,
}

impl ReadinessState {
    /// The abstract value of the flag.
    pub closed spec fn spec_is_ready(&self) -> bool {
        self.ready
    }

    /// The flag after `set_true`: the latch holds, whatever it held before.
    pub closed spec fn spec_latched(&self) -> ReadinessState {
        ReadinessState { ready: true }
    }

    /// A fresh, not-yet-ready flag.
    pub fn new() -> (r: ReadinessState)
        ensures
            !r.spec_is_ready(),
    {
        ReadinessState { ready: false }
    }

    /// Latch the flag. Idempotent: the result does not depend on the value
    /// held before the call.
    pub fn set_true(&mut self)
        ensures
            *final(self) == old(self).spec_latched(),
            final(self).spec_is_ready(),
    {
        self.ready = true;
    }

    /// Non-blocking snapshot of the flag.
    pub fn get(&self) -> (b: bool)
        ensures
            b == self.spec_is_ready(),
    {
        self.ready
    }
}

/// A flag that already stands ready is exactly the latched flag: latching it
/// again changes nothing.
pub proof fn lemma_ready_is_latched(s: ReadinessState)
    requires
        s.spec_is_ready(),
    ensures
        s == s.spec_latched(),
{
}

/// Two writers may race to latch the flag; the latch is idempotent and
/// order-independent, so whichever order their writes land in, the session
/// ends in the same state, with the flag true.
pub proof fn lemma_latch_race_is_benign(a: ReadinessState, b: ReadinessState)
    ensures
        a.spec_latched().spec_latched() == a.spec_latched(),
        a.spec_latched() == b.spec_latched(),
        a.spec_latched().spec_is_ready(),
{
}

} // verus!
