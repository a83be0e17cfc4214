//! Properties that hold across calls of the bridge's operations.
use vstd::prelude::*;
use crate::event::{spec_button_slot, spec_event_class, EventClass, InputEvent, MouseButton, N_BUTTONS};
use crate::bridge::{
    spec_constructs, spec_cursor_step, spec_effective_down, spec_folds_event, spec_folds_events,
    spec_frame_started, spec_press_after, spec_suppressed, BridgeState, CursorShape,
};
use crate::ui_input::UiInput;

verus! {

/// Folding an event never clears a pending press.
pub proof fn lemma_press_kept(p: Seq<bool>, e: InputEvent, i: int)
    requires
        p.len() == N_BUTTONS,
        0 <= i < p.len(),
        p[i],
    ensures
        spec_press_after(p, e)[i],
{
}

/// A press of a known button, folded anywhere in the batch of events between
/// two frame consolidations, makes that button count as down at the second
/// consolidation, whatever the poll shows then.
pub proof fn lemma_press_reaches_frame(
    states: Seq<BridgeState>,
    events: Seq<InputEvent>,
    k: int,
    b: MouseButton,
    polled: Seq<bool>,
)
    requires
        spec_folds_events(states, events),
        0 <= k < events.len(),
        events[k] == (InputEvent::MouseButtonDown { button: b }),
        spec_button_slot(b) is Some,
    ensures
        spec_effective_down(
            states.last().pending_mouse_press@,
            polled,
            spec_button_slot(b)->Some_0,
        ),
{
    let i = spec_button_slot(b)->Some_0;
    assert(spec_folds_event(states[k], states[k + 1], events[k]));
    lemma_press_stays(states, events, k + 1, i);
}

/// A pending press in the state at step `m` is still pending at the end of the run.
proof fn lemma_press_stays(states: Seq<BridgeState>, events: Seq<InputEvent>, m: int, i: int)
    requires
        spec_folds_events(states, events),
        0 <= m <= events.len(),
        0 <= i < N_BUTTONS,
        states[m].pending_mouse_press@[i],
    ensures
        states.last().pending_mouse_press@[i],
    decreases events.len() - m,
{
    if m < events.len() {
        assert(spec_folds_event(states[m], states[m + 1], events[m]));
        lemma_press_kept(states[m].pending_mouse_press@, events[m], i);
        lemma_press_stays(states, events, m + 1, i);
    }
}

/// Folding events from step `m` on leaves the suppression flags as they are there.
proof fn lemma_flags_stay(states: Seq<BridgeState>, events: Seq<InputEvent>, m: int)
    requires
        spec_folds_events(states, events),
        0 <= m <= events.len(),
    ensures
        states.last().suppress_keyboard == states[m].suppress_keyboard,
        states.last().suppress_mouse == states[m].suppress_mouse,
    decreases events.len() - m,
{
    if m < events.len() {
        assert(spec_folds_event(states[m], states[m + 1], events[m]));
        lemma_flags_stay(states, events, m + 1);
    }
}

/// Between two frame consolidations, whether a keyboard-class event is
/// withheld is what the UI library wanted at the first of them; folding
/// events in between never changes it.
pub proof fn lemma_keyboard_suppression_from_frame(
    before: BridgeState,
    io: UiInput,
    states: Seq<BridgeState>,
    events: Seq<InputEvent>,
    e: InputEvent,
)
    requires
        spec_folds_events(states, events),
        spec_frame_started(before, states[0], io),
        spec_event_class(e) == EventClass::Keyboard,
    ensures
        spec_suppressed(states.last(), e) == io.want_capture_keyboard,
{
    lemma_flags_stay(states, events, 0);
}

/// Requesting the same shape at two consecutive frame ends constructs a
/// platform cursor at most once, at the first, and exactly once when another
/// shape (or none) was applied before; the shape stays cached.
pub proof fn lemma_same_cursor_constructed_once(last: Option<CursorShape>, c: CursorShape)
    ensures
        ({
            let (a1, l1) = spec_cursor_step(last, Some(c), false, false);
            let (a2, l2) = spec_cursor_step(l1, Some(c), false, false);
            &&& spec_constructs(a1) == (last != Some(c))
            &&& !spec_constructs(a2)
            &&& l1 == Some(c)
            &&& l2 == Some(c)
        }),
{
}

/// Requesting a shape other than the cached one constructs a platform cursor
/// of that shape and caches it.
pub proof fn lemma_new_cursor_constructed(c1: CursorShape, c2: CursorShape)
    requires
        c1 != c2,
    ensures
        spec_cursor_step(Some(c1), Some(c2), false, false) == (
            crate::bridge::CursorAction::ShowAndSet(c2),
            Some(c2),
        ),
{
}

} // verus!
