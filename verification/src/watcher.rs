//! The stream watcher: consumes the sequence of output events produced by
//! the child process, in arrival order, decoding each line, classifying it,
//! and latching the shared readiness flag the moment a line indicates
//! readiness. Every event is answered with an explicit diagnostic action, so
//! nothing is dropped silently except the explicitly ignored kind.

use vstd::prelude::*;
use crate::classifier::StreamOrigin;
use crate::classifier::classify_line;
use crate::classifier::seq_contains;
use crate::classifier::spec_line_indicates_readiness;
use crate::readiness::ReadinessState;

verus! {

/// One event from the child-process abstraction: a raw line from one of its
/// two output streams, its termination, or some other event kind.
pub enum OutputEvent {
    StdoutLine(Vec<u8>),
    StderrLine(Vec<u8>),
    Terminated { code: Option<i32>, signal: Option<i32> },
    Other,
}

/// What `String::from_utf8_lossy` returns for the given bytes: a function of
/// the bytes alone.
pub uninterp spec fn lossy_decode_of(bytes: Seq<u8>) -> Seq<char>;

/// Relies on `String::from_utf8_lossy`: decodes the bytes as UTF-8 with
/// invalid sequences replaced, never failing, and depends on the bytes
/// alone.
#[verifier::external_body]
fn decode_lossy(bytes: &Vec<u8>) -> (r: String)
    ensures
        r@ == lossy_decode_of(bytes@),
{
    String::from_utf8_lossy(bytes).into_owned()
}

/// The event carries a line that indicates readiness for its stream.
/// Termination and other event kinds never do: readiness is a point-in-time
/// signal, and a later exit must not rewrite it.
pub open spec fn spec_event_signals_ready(e: OutputEvent) -> bool {
    match e {
        OutputEvent::StdoutLine(bytes) => spec_line_indicates_readiness(
            lossy_decode_of(bytes@),
            StreamOrigin::Stdout,
        ),
        OutputEvent::StderrLine(bytes) => spec_line_indicates_readiness(
            lossy_decode_of(bytes@),
            StreamOrigin::Stderr,
        ),
        OutputEvent::Terminated { .. } => false,
        OutputEvent::Other => false,
    }
}

/// The diagnostic action owed for one event: forward a decoded line to the
/// log tagged with its origin (announcing readiness the one time the flag
/// flips), log a termination at error severity, or ignore the event.
pub enum WatcherAction {
    LogLine { origin: StreamOrigin, text: String, announce_ready: bool },
    LogTermination { code: Option<i32>, signal: Option<i32> },
    Ignore,
}

/// `action` is exactly the diagnostic action owed for `event`, given whether
/// the flag already stood ready before the event.
pub open spec fn spec_action_for(pre_ready: bool, event: OutputEvent, action: WatcherAction) -> bool {
    match event {
        OutputEvent::StdoutLine(bytes) => match action {
            WatcherAction::LogLine { origin, text, announce_ready } => {
                &&& origin == StreamOrigin::Stdout
                &&& text@ == lossy_decode_of(bytes@)
                &&& announce_ready == (!pre_ready && spec_line_indicates_readiness(
                    lossy_decode_of(bytes@),
                    StreamOrigin::Stdout,
                ))
            },
            _ => false,
        },
        OutputEvent::StderrLine(bytes) => match action {
            WatcherAction::LogLine { origin, text, announce_ready } => {
                &&& origin == StreamOrigin::Stderr
                &&& text@ == lossy_decode_of(bytes@)
                &&& announce_ready == (!pre_ready && spec_line_indicates_readiness(
                    lossy_decode_of(bytes@),
                    StreamOrigin::Stderr,
                ))
            },
            _ => false,
        },
        OutputEvent::Terminated { code, signal } => action == (WatcherAction::LogTermination {
            code,
            signal,
        }),
        OutputEvent::Other => action == WatcherAction::Ignore,
    }
}

/// Process one event: decode and classify a line, latching the flag if the
/// line indicates readiness; record a termination; ignore anything else.
/// The flag after the call is the flag before it, or-ed with the event's own
/// readiness signal — so it never reverts.
pub fn handle_event(state: &mut ReadinessState, event: &OutputEvent) -> (action: WatcherAction)
    ensures
        final(state).spec_is_ready() == (old(state).spec_is_ready() || spec_event_signals_ready(
            *event,
        )),
        spec_action_for(old(state).spec_is_ready(), *event, action),
{
    match event {
        OutputEvent::StdoutLine(bytes) => {
            let text = decode_lossy(bytes);
            let was_ready = state.get();
            let hit = classify_line(text.as_str(), StreamOrigin::Stdout);
            if hit {
                state.set_true();
            }
            WatcherAction::LogLine {
                origin: StreamOrigin::Stdout,
                text,
                announce_ready: !was_ready && hit,
            }
        },
        OutputEvent::StderrLine(bytes) => {
            let text = decode_lossy(bytes);
            let was_ready = state.get();
            let hit = classify_line(text.as_str(), StreamOrigin::Stderr);
            if hit {
                state.set_true();
            }
            WatcherAction::LogLine {
                origin: StreamOrigin::Stderr,
                text,
                announce_ready: !was_ready && hit,
            }
        },
        OutputEvent::Terminated { code, signal } => WatcherAction::LogTermination {
            code: *code,
            signal: *signal,
        },
        OutputEvent::Other => WatcherAction::Ignore,
    }
}

/// The flag after a whole event sequence has been processed, starting from
/// `init`: it is `init` or-ed with every event's readiness signal, folded in
/// arrival order.
pub open spec fn spec_ready_after(init: bool, events: Seq<OutputEvent>) -> bool
    decreases events.len(),
{
    if events.len() == 0 {
        init
    } else {
        spec_ready_after(init, events.drop_last()) || spec_event_signals_ready(events.last())
    }
}

/// Drain a batch of events in arrival order, returning the diagnostic action
/// owed for each one.
pub fn drain_events(state: &mut ReadinessState, events: &Vec<OutputEvent>) -> (actions: Vec<
    WatcherAction,
>)
    ensures
        final(state).spec_is_ready() == spec_ready_after(old(state).spec_is_ready(), events@),
        actions@.len() == events@.len(),
        forall|i: int|
            0 <= i < events@.len() ==> spec_action_for(
                spec_ready_after(old(state).spec_is_ready(), events@.take(i)),
                events@[i],
                actions@[i],
            ),
{
    let mut actions: Vec<WatcherAction> = Vec::new();
    let mut idx: usize = 0;
    while idx < events.len()
        invariant
            idx <= events@.len(),
            actions@.len() == idx,
            state.spec_is_ready() == spec_ready_after(
                old(state).spec_is_ready(),
                events@.take(idx as int),
            ),
            forall|i: int|
                0 <= i < idx ==> spec_action_for(
                    spec_ready_after(old(state).spec_is_ready(), events@.take(i)),
                    events@[i],
                    actions@[i],
                ),
        decreases events@.len() - idx,
    {
        proof {
            assert(events@.take(idx as int) =~= events@.take(idx + 1).drop_last());
            assert(events@.take(idx + 1).last() == events@[idx as int]);
        }
        let action = handle_event(state, &events[idx]);
        actions.push(action);
        idx += 1;
    }
    proof {
        assert(events@.take(events@.len() as int) =~= events@);
    }
    actions
}

/// Readiness is monotonic over event processing: once the flag holds after
/// some prefix of the session, it holds after every longer prefix.
pub proof fn lemma_ready_monotonic(init: bool, events: Seq<OutputEvent>, i: int, j: int)
    requires
        0 <= i <= j <= events.len(),
        spec_ready_after(init, events.take(i)),
    ensures
        spec_ready_after(init, events.take(j)),
    decreases j - i,
{
    if i < j {
        lemma_ready_monotonic(init, events, i, j - 1);
        assert(events.take(j).drop_last() =~= events.take(j - 1));
        assert(events.take(j).last() == events[j - 1]);
    }
}

/// Once any event carrying a readiness marker is processed, the flag is true
/// from that point through the rest of the session.
pub proof fn lemma_marker_latches(init: bool, events: Seq<OutputEvent>, i: int, j: int)
    requires
        0 <= i < events.len(),
        spec_event_signals_ready(events[i]),
        i < j <= events.len(),
    ensures
        spec_ready_after(init, events.take(j)),
{
    assert(spec_ready_after(init, events.take(i + 1))) by {
        assert(events.take(i + 1).last() == events[i]);
    }
    lemma_ready_monotonic(init, events, i + 1, j);
}

/// If no event of the session ever signals readiness — lines never match,
/// and a termination by itself never counts — the flag stays false through
/// the whole stream; only the timeout guard can then unblock a waiter.
pub proof fn lemma_silent_stream_stays_unready(events: Seq<OutputEvent>)
    requires
        forall|i: int| 0 <= i < events.len() ==> !spec_event_signals_ready(#[trigger] events[i]),
    ensures
        !spec_ready_after(false, events),
    decreases events.len(),
{
    if events.len() > 0 {
        assert(forall|i: int|
            0 <= i < events.drop_last().len() ==> !spec_event_signals_ready(
                #[trigger] events.drop_last()[i],
            ));
        lemma_silent_stream_stays_unready(events.drop_last());
        assert(events.last() == events[events.len() - 1]);
    }
}

/// A standard-error event can signal readiness only when its decoded text
/// contains one of the narrow error-stream markers.
pub proof fn lemma_stderr_event_needs_narrow_marker(e: OutputEvent)
    requires
        spec_event_signals_ready(e),
    ensures
        e matches OutputEvent::StderrLine(bytes) ==> (seq_contains(
            lossy_decode_of(bytes@),
            "on port"@,
        ) || seq_contains(lossy_decode_of(bytes@), "Uvicorn running"@)),
{
}

} // verus!
