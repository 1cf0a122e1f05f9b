//! The timeout guard: the bounded-wait fallback that fires once, after a
//! fixed delay, and forces the readiness flag true if no marker line ever
//! arrived. This is an intentional false-positive policy: after the timeout,
//! "ready" means "we stopped waiting", not "verified ready".

use vstd::prelude::*;
use crate::readiness::ReadinessState;
use crate::readiness::lemma_ready_is_latched;
use crate::watcher::lemma_silent_stream_stays_unready;
use crate::watcher::spec_event_signals_ready;
use crate::watcher::spec_ready_after;
use crate::watcher::OutputEvent;

verus! {

/// The guard's firing step, run after the fixed delay has elapsed: if the
/// flag is still false, force it true; otherwise do nothing. Returns whether
/// the degraded "continuing anyway" warning is owed — exactly when the flag
/// had not been set yet, so a session that fires the guard once warns at
/// most once, and a flag set in time draws no warning at all.
pub fn force_ready_on_timeout(state: &mut ReadinessState) -> (warned: bool)
    ensures
        final(state).spec_is_ready(),
        *final(state) == old(state).spec_latched(),
        warned == !old(state).spec_is_ready(),
{
    if state.get() {
        proof {
            lemma_ready_is_latched(*state);
        }
        false
    } else {
        state.set_true();
        true
    }
}

/// Liveness: in a session whose event stream never signals readiness — the
/// classifier never matches and the process never does more than terminate —
/// the flag is still false when the guard fires, and the guard's forcing
/// then leaves it true. The caller's wait resolves in bounded time either
/// way.
pub proof fn lemma_timeout_unblocks_silent_session(events: Seq<OutputEvent>, s: ReadinessState)
    requires
        forall|i: int| 0 <= i < events.len() ==> !spec_event_signals_ready(#[trigger] events[i]),
        s.spec_is_ready() == spec_ready_after(false, events),
    ensures
        !s.spec_is_ready(),
        s.spec_latched().spec_is_ready(),
{
    lemma_silent_stream_stays_unready(events);
    crate::readiness::lemma_latch_race_is_benign(s, s);
}

} // verus!
