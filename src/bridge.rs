//! The bridge's own state and its per-event and per-frame operations.
use vstd::prelude::*;
use crate::event::{
    spec_button_slot, spec_event_class, spec_modifiers, modifiers_of, EventClass, InputEvent,
    Modifiers, N_BUTTONS,
};
use crate::keymap::{key_table, spec_keys_of, spec_scancode_of, UiKey, KEY_TABLE_LEN, N_UI_KEYS};
use crate::ui_input::{Ratio, UiInput};

verus! {

/// A cursor shape the UI library may ask for.
#[derive(Clone, Copy, Debug, PartialEq, Eq, Structural)]
pub enum CursorShape {
    Arrow,
    TextInput,
    ResizeAll,
    ResizeNS,
    ResizeEW,
    ResizeNESW,
    ResizeNWSE,
    Hand,
    NotAllowed,
}

/// What the platform must do with its cursor at the end of a frame.
#[derive(Clone, Copy, Debug, PartialEq, Eq, Structural)]
pub enum CursorAction {
    /// Leave the cursor as it is.
    Unchanged,
    /// Show the hardware cursor; the active shape is already the wanted one.
    Show,
    /// Show the hardware cursor, construct the platform cursor of this shape
    /// and make it active.
    ShowAndSet(CursorShape),
    /// Hide the hardware cursor.
    Hide,
}

/// Whether an action constructs a platform cursor object.
pub open spec fn spec_constructs(a: CursorAction) -> bool {
    a is ShowAndSet
}

/// Cursor action and new cached shape at the end of a frame.
pub open spec fn spec_cursor_step(
    last: Option<CursorShape>,
    requested: Option<CursorShape>,
    draw_own_cursor: bool,
    changes_disabled: bool,
) -> (CursorAction, Option<CursorShape>) {
    if changes_disabled {
        (CursorAction::Unchanged, last)
    } else {
        match requested {
            Some(c) => if draw_own_cursor {
                (CursorAction::Hide, None)
            } else if last == Some(c) {
                (CursorAction::Show, last)
            } else {
                (CursorAction::ShowAndSet(c), Some(c))
            },
            None => (CursorAction::Hide, None),
        }
    }
}

/// State the bridge carries from event to event and frame to frame.
#[derive(Clone, Copy, Debug)]
pub struct BridgeState {
    /// Per logical button: pressed since the last frame consolidation.
    pub pending_mouse_press: [bool; N_BUTTONS],
    /// Keyboard-class events are withheld from the application.
    pub suppress_keyboard: bool,
    /// Pointer-class events are withheld from the application.
    pub suppress_mouse: bool,
    /// The cursor shape most recently pushed to the platform.
    pub last_applied_cursor: Option<CursorShape>,
}

/// Window geometry at the start of a frame.
#[derive(Clone, Copy, Debug, PartialEq, Eq, Structural)]
pub struct WindowGeometry {
    /// Logical window size.
    pub width: u32,
    pub height: u32,
    /// Size of the drawable backing buffer.
    pub drawable_width: u32,
    pub drawable_height: u32,
}

/// The platform's polled mouse state, independent of events.
#[derive(Clone, Copy, Debug)]
pub struct MouseSnapshot {
    pub x: i32,
    pub y: i32,
    /// Live down state of each logical button.
    pub buttons: [bool; N_BUTTONS],
}

/// A button counts as down for the frame if it was pressed since the last
/// consolidation or the poll shows it down.
pub open spec fn spec_effective_down(pending: Seq<bool>, polled: Seq<bool>, i: int) -> bool {
    pending[i] || polled[i]
}

/// Some button is down in a per-button array.
pub open spec fn spec_any_down(d: Seq<bool>) -> bool {
    exists|i: int| 0 <= i < N_BUTTONS && #[trigger] d[i]
}

/// No button has a pending press.
pub open spec fn spec_no_pending(p: [bool; N_BUTTONS]) -> bool {
    forall|i: int| 0 <= i < N_BUTTONS ==> !#[trigger] p@[i]
}

/// What `should_suppress` answers for an event in a given state.
pub open spec fn spec_suppressed(s: BridgeState, e: InputEvent) -> bool {
    match spec_event_class(e) {
        EventClass::Keyboard => s.suppress_keyboard,
        EventClass::Pointer => s.suppress_mouse,
        EventClass::Unclassified => false,
    }
}

/// Pending presses after folding an event: a button-down of a known button
/// marks that button.
pub open spec fn spec_press_after(p: Seq<bool>, e: InputEvent) -> Seq<bool> {
    match e {
        InputEvent::MouseButtonDown { button } => match spec_button_slot(button) {
            Some(i) => p.update(i, true),
            None => p,
        },
        _ => p,
    }
}

/// Key-state table after folding an event: a key event with a scancode inside
/// the table sets (down) or clears (up) that scancode's slot.
pub open spec fn spec_keys_after(k: Seq<bool>, e: InputEvent) -> Seq<bool> {
    match e {
        InputEvent::KeyDown { scancode: Some(c), .. } => if c < KEY_TABLE_LEN {
            k.update(c as int, true)
        } else {
            k
        },
        InputEvent::KeyUp { scancode: Some(c), .. } => if c < KEY_TABLE_LEN {
            k.update(c as int, false)
        } else {
            k
        },
        _ => k,
    }
}

/// The bridge-state part of folding one event: presses are recorded, the
/// suppression flags and the cached cursor are untouched.
pub open spec fn spec_folds_event(s: BridgeState, t: BridgeState, e: InputEvent) -> bool {
    &&& t.pending_mouse_press@ == spec_press_after(s.pending_mouse_press@, e)
    &&& t.suppress_keyboard == s.suppress_keyboard
    &&& t.suppress_mouse == s.suppress_mouse
    &&& t.last_applied_cursor == s.last_applied_cursor
}

/// `states` is the run of bridge states while `events` are folded one by one.
pub open spec fn spec_folds_events(states: Seq<BridgeState>, events: Seq<InputEvent>) -> bool {
    &&& states.len() == events.len() + 1
    &&& forall|k: int|
        0 <= k < events.len() ==> spec_folds_event(
            #[trigger] states[k],
            states[k + 1],
            events[k],
        )
}

/// The bridge-state part of a frame consolidation from `s` to `t`, with `io`
/// the snapshot as the previous layout pass left it: presses consumed,
/// suppression taken from the UI library's capture wishes, cursor untouched.
pub open spec fn spec_frame_started(s: BridgeState, t: BridgeState, io: UiInput) -> bool {
    &&& spec_no_pending(t.pending_mouse_press)
    &&& t.suppress_keyboard == io.want_capture_keyboard
    &&& t.suppress_mouse == io.want_capture_mouse
    &&& t.last_applied_cursor == s.last_applied_cursor
}

/// Modifier booleans of a snapshot.
pub open spec fn spec_modifiers_in(io: UiInput) -> Modifiers {
    Modifiers { ctrl: io.key_ctrl, alt: io.key_alt, shift: io.key_shift, platform: io.key_super }
}

/// Modifier booleans after folding an event: a key event recomputes all four
/// from its mask.
pub open spec fn spec_modifiers_after(m: Modifiers, e: InputEvent) -> Modifiers {
    match e {
        InputEvent::KeyDown { keymod, .. } => spec_modifiers(keymod),
        InputEvent::KeyUp { keymod, .. } => spec_modifiers(keymod),
        _ => m,
    }
}

/// Typed-character queue after folding an event: text input appends its characters.
pub open spec fn spec_queue_after(q: Seq<char>, e: InputEvent) -> Seq<char> {
    match e {
        InputEvent::TextInput { text } => q + text@,
        _ => q,
    }
}

/// Wheel delta after folding an event: the last wheel event wins.
pub open spec fn spec_wheel_after(w: i32, e: InputEvent) -> i32 {
    match e {
        InputEvent::MouseWheel { y } => y,
        _ => w,
    }
}

impl BridgeState {
    /// Installs the key map into the snapshot and starts with no pending
    /// presses, no suppression and no cached cursor.
    pub fn initialize(io: &mut UiInput) -> (r: BridgeState)
        ensures
            spec_no_pending(r.pending_mouse_press),
            !r.suppress_keyboard,
            !r.suppress_mouse,
            r.last_applied_cursor is None,
            final(io).key_map@.len() == N_UI_KEYS,
            forall|i: int|
                0 <= i < N_UI_KEYS ==> (#[trigger] final(io).key_map@[i]).1 == spec_scancode_of(
                    final(io).key_map@[i].0,
                ),
            forall|k: UiKey| #[trigger] spec_keys_of(final(io).key_map@).contains(k),
            final(io).keys_down == old(io).keys_down,
            final(io).mouse_down == old(io).mouse_down,
            final(io).mouse_pos == old(io).mouse_pos,
            final(io).mouse_wheel == old(io).mouse_wheel,
            spec_modifiers_in(*final(io)) == spec_modifiers_in(*old(io)),
            final(io).input_queue == old(io).input_queue,
            final(io).display_size == old(io).display_size,
            final(io).framebuffer_scale == old(io).framebuffer_scale,
            final(io).want_capture_keyboard == old(io).want_capture_keyboard,
            final(io).want_capture_mouse == old(io).want_capture_mouse,
    {
        io.key_map = key_table();
        BridgeState {
            pending_mouse_press: [false, false, false, false, false],
            suppress_keyboard: false,
            suppress_mouse: false,
            last_applied_cursor: None,
        }
    }

    /// Whether the event should be withheld from the application because
    /// the UI currently claims its input class.
    pub fn should_suppress(&self, e: &InputEvent) -> (r: bool)
        ensures
            r == spec_suppressed(*self, *e),
    {
        match e.class() {
            EventClass::Keyboard => self.suppress_keyboard,
            EventClass::Pointer => self.suppress_mouse,
            EventClass::Unclassified => false,
        }
    }

    /// Folds one raw event into the bridge state and the UI snapshot.
    pub fn handle_event(&mut self, io: &mut UiInput, e: &InputEvent)
        requires
            old(io).wf(),
        ensures
            final(io).wf(),
            spec_folds_event(*old(self), *final(self), *e),
            final(io).keys_down@ == spec_keys_after(old(io).keys_down@, *e),
            spec_modifiers_in(*final(io)) == spec_modifiers_after(spec_modifiers_in(*old(io)), *e),
            final(io).input_queue@ == spec_queue_after(old(io).input_queue@, *e),
            final(io).mouse_wheel == spec_wheel_after(old(io).mouse_wheel, *e),
            final(io).mouse_down == old(io).mouse_down,
            final(io).mouse_pos == old(io).mouse_pos,
            final(io).display_size == old(io).display_size,
            final(io).framebuffer_scale == old(io).framebuffer_scale,
            final(io).key_map == old(io).key_map,
            final(io).want_capture_keyboard == old(io).want_capture_keyboard,
            final(io).want_capture_mouse == old(io).want_capture_mouse,
    {
        match e {
            InputEvent::MouseWheel { y } => {
                io.mouse_wheel = *y;
            },
            InputEvent::MouseButtonDown { button } => {
                if let Some(i) = button.slot() {
                    self.pending_mouse_press[i] = true;
                }
            },
            InputEvent::TextInput { text } => {
                push_chars(&mut io.input_queue, text);
            },
            InputEvent::KeyDown { scancode, keymod } => {
                set_key(io, *scancode, *keymod, true);
            },
            InputEvent::KeyUp { scancode, keymod } => {
                set_key(io, *scancode, *keymod, false);
            },
            _ => {},
        }
    }

    /// Consolidates the frame's input into the UI snapshot: display size and
    /// framebuffer scale, each button's effective down state (pending press
    /// or polled down), the pointer position, and the UI library's capture
    /// wishes of the previous frame as the next batch's suppression flags.
    /// Pending presses are consumed. Returns whether the platform should
    /// capture the mouse, which it should while any button is down.
    pub fn begin_frame(
        &mut self,
        io: &mut UiInput,
        geometry: &WindowGeometry,
        mouse: &MouseSnapshot,
    ) -> (capture: bool)
        requires
            old(io).wf(),
        ensures
            final(io).wf(),
            final(io).display_size == (geometry.width, geometry.height),
            final(io).framebuffer_scale == (
                Ratio { num: geometry.drawable_width, den: geometry.width },
                Ratio { num: geometry.drawable_height, den: geometry.height },
            ),
            forall|i: int|
                0 <= i < N_BUTTONS ==> #[trigger] final(io).mouse_down@[i] == spec_effective_down(
                    old(self).pending_mouse_press@,
                    mouse.buttons@,
                    i,
                ),
            final(io).mouse_pos == (mouse.x, mouse.y),
            capture == spec_any_down(final(io).mouse_down@),
            spec_frame_started(*old(self), *final(self), *old(io)),
            final(io).keys_down == old(io).keys_down,
            final(io).key_map == old(io).key_map,
            spec_modifiers_in(*final(io)) == spec_modifiers_in(*old(io)),
            final(io).input_queue == old(io).input_queue,
            final(io).mouse_wheel == old(io).mouse_wheel,
            final(io).want_capture_keyboard == old(io).want_capture_keyboard,
            final(io).want_capture_mouse == old(io).want_capture_mouse,
    {
        io.display_size = (geometry.width, geometry.height);
        io.framebuffer_scale = (
            Ratio { num: geometry.drawable_width, den: geometry.width },
            Ratio { num: geometry.drawable_height, den: geometry.height },
        );
        let mut down: [bool; N_BUTTONS] = [false, false, false, false, false];
        let mut any = false;
        for i in 0..N_BUTTONS
            invariant
                forall|j: int|
                    0 <= j < i ==> #[trigger] down@[j] == spec_effective_down(
                        self.pending_mouse_press@,
                        mouse.buttons@,
                        j,
                    ),
                any == exists|j: int| 0 <= j < i && #[trigger] down@[j],
        {
            let ghost before = down@;
            let ghost any_before = any;
            down[i] = self.pending_mouse_press[i] || mouse.buttons[i];
            assert(forall|j: int| 0 <= j < i ==> before[j] == down@[j]);
            any = any || down[i];
            proof {
                if any_before {
                    let j = choose|j: int| 0 <= j < i && #[trigger] before[j];
                    assert(down@[j]);
                }
                if down@[i as int] {
                    assert(down@[i as int]);
                }
            }
        }
        self.pending_mouse_press = [false, false, false, false, false];
        io.mouse_down = down;
        io.mouse_pos = (mouse.x, mouse.y);
        self.suppress_keyboard = io.want_capture_keyboard;
        self.suppress_mouse = io.want_capture_mouse;
        any
    }

    /// Syncs the platform cursor with the UI library's request after its
    /// layout pass. With cursor changes disabled nothing happens. A requested
    /// shape that the UI does not draw itself shows the hardware cursor, and
    /// a platform cursor is constructed only when the shape differs from the
    /// one applied last. Otherwise the hardware cursor is hidden and the
    /// cached shape forgotten.
    pub fn end_frame(
        &mut self,
        requested: Option<CursorShape>,
        draw_own_cursor: bool,
        cursor_changes_disabled: bool,
    ) -> (action: CursorAction)
        ensures
            (action, final(self).last_applied_cursor) == spec_cursor_step(
                old(self).last_applied_cursor,
                requested,
                draw_own_cursor,
                cursor_changes_disabled,
            ),
            final(self).pending_mouse_press == old(self).pending_mouse_press,
            final(self).suppress_keyboard == old(self).suppress_keyboard,
            final(self).suppress_mouse == old(self).suppress_mouse,
    {
        if cursor_changes_disabled {
            return CursorAction::Unchanged;
        }
        match requested {
            Some(c) if !draw_own_cursor => {
                if self.last_applied_cursor == Some(c) {
                    CursorAction::Show
                } else {
                    self.last_applied_cursor = Some(c);
                    CursorAction::ShowAndSet(c)
                }
            },
            _ => {
                self.last_applied_cursor = None;
                CursorAction::Hide
            },
        }
    }
}

/// What the clipboard adapter hands the UI library on a read: nothing when
/// the platform clipboard is empty or cannot be read, its text otherwise.
pub fn clipboard_reply(has_text: bool, read: Result<String, String>) -> (r: Option<String>)
    ensures
        r == (if has_text && read is Ok {
            Some(read->Ok_0)
        } else {
            None
        }),
{
    if !has_text {
        return None;
    }
    match read {
        Ok(text) => Some(text),
        Err(_) => None,
    }
}

/// Appends every character of `text` to `queue`, in order.
fn push_chars(queue: &mut Vec<char>, text: &String)
    ensures
        final(queue)@ == old(queue)@ + text@,
{
    let ghost start = queue@;
    for c in it: text.as_str().chars()
        invariant
            it.seq() == text@,
            queue@ == start + text@.take(it.index() as int),
    {
        queue.push(c);
        assert(text@.take(it.index() + 1) =~= text@.take(it.index() as int).push(c));
    }
    assert(text@.take(text@.len() as int) =~= text@);
}

/// Pushes a key event's modifiers and, for a scancode inside the table, its
/// down state.
fn set_key(io: &mut UiInput, scancode: Option<u32>, keymod: u16, down: bool)
    requires
        old(io).wf(),
    ensures
        final(io).wf(),
        spec_modifiers_in(*final(io)) == spec_modifiers(keymod),
        final(io).keys_down@ == (match scancode {
            Some(c) => if c < KEY_TABLE_LEN {
                old(io).keys_down@.update(c as int, down)
            } else {
                old(io).keys_down@
            },
            None => old(io).keys_down@,
        }),
        final(io).input_queue == old(io).input_queue,
        final(io).mouse_wheel == old(io).mouse_wheel,
        final(io).mouse_down == old(io).mouse_down,
        final(io).mouse_pos == old(io).mouse_pos,
        final(io).display_size == old(io).display_size,
        final(io).framebuffer_scale == old(io).framebuffer_scale,
        final(io).key_map == old(io).key_map,
        final(io).want_capture_keyboard == old(io).want_capture_keyboard,
        final(io).want_capture_mouse == old(io).want_capture_mouse,
{
    let m = modifiers_of(keymod);
    io.key_ctrl = m.ctrl;
    io.key_alt = m.alt;
    io.key_shift = m.shift;
    io.key_super = m.platform;
    if let Some(c) = scancode {
        if (c as usize) < KEY_TABLE_LEN {
            io.keys_down.set(c as usize, down);
        }
    }
}

} // verus!
