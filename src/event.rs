//! Platform input events, as plain values the bridge reasons about.
use vstd::prelude::*;

verus! {

/// Number of logical mouse buttons the bridge tracks.
pub const N_BUTTONS: usize = 5;

/// A mouse button as reported by the windowing layer.
#[derive(Clone, Copy, Debug, PartialEq, Eq, Structural)]
pub enum MouseButton {
    Left,
    Right,
    Middle,
    Extra1,
    Extra2,
    /// A button the windowing layer could not identify.
    Unknown,
}

/// Slot of a known button in the UI library's per-button arrays
/// (left, right, middle, extra1, extra2); `None` for an unknown button.
pub open spec fn spec_button_slot(b: MouseButton) -> Option<int> {
    match b {
        MouseButton::Left => Some(0),
        MouseButton::Right => Some(1),
        MouseButton::Middle => Some(2),
        MouseButton::Extra1 => Some(3),
        MouseButton::Extra2 => Some(4),
        MouseButton::Unknown => None,
    }
}

impl MouseButton {
    /// The slot of this button in per-button arrays, if it is a known one.
    pub fn slot(&self) -> (r: Option<usize>)
        ensures
            r matches Some(i) ==> i < N_BUTTONS,
            r matches Some(i) ==> spec_button_slot(*self) == Some(i as int),
            r is None <==> spec_button_slot(*self) is None,
    {
        match self {
            MouseButton::Left => Some(0),
            MouseButton::Right => Some(1),
            MouseButton::Middle => Some(2),
            MouseButton::Extra1 => Some(3),
            MouseButton::Extra2 => Some(4),
            MouseButton::Unknown => None,
        }
    }
}

/// Modifier bits of the windowing layer's key-modifier mask.
pub const MOD_LSHIFT: u16 = 0x0001;
pub const MOD_RSHIFT: u16 = 0x0002;
pub const MOD_LCTRL: u16 = 0x0040;
pub const MOD_RCTRL: u16 = 0x0080;
pub const MOD_LALT: u16 = 0x0100;
pub const MOD_RALT: u16 = 0x0200;
pub const MOD_LGUI: u16 = 0x0400;
pub const MOD_RGUI: u16 = 0x0800;

/// A raw event of the windowing layer, reduced to what the bridge reads.
#[derive(Clone, Debug)]
pub enum InputEvent {
    /// A key went down; `scancode` is the physical key, if the layer knows it.
    KeyDown { scancode: Option<u32>, keymod: u16 },
    /// A key went up.
    KeyUp { scancode: Option<u32>, keymod: u16 },
    /// Composition text of an input method changed.
    TextEditing,
    /// Text was typed.
    TextInput { text: String },
    MouseMotion,
    MouseButtonDown { button: MouseButton },
    MouseButtonUp { button: MouseButton },
    /// The wheel turned; `y` is the vertical delta.
    MouseWheel { y: i32 },
    /// A touch-finger event.
    Touch,
    /// A multi-finger or recorded gesture event.
    Gesture,
    /// Window, quit and every other event.
    Other,
}

/// The three buckets that decide whether an event may be withheld.
#[derive(Clone, Copy, Debug, PartialEq, Eq, Structural)]
pub enum EventClass {
    Keyboard,
    Pointer,
    Unclassified,
}

pub open spec fn spec_event_class(e: InputEvent) -> EventClass {
    match e {
        InputEvent::KeyDown { .. } | InputEvent::KeyUp { .. } | InputEvent::TextEditing
        | InputEvent::TextInput { .. } => EventClass::Keyboard,
        InputEvent::MouseMotion | InputEvent::MouseButtonDown { .. }
        | InputEvent::MouseButtonUp { .. } | InputEvent::MouseWheel { .. } | InputEvent::Touch
        | InputEvent::Gesture => EventClass::Pointer,
        InputEvent::Other => EventClass::Unclassified,
    }
}

impl InputEvent {
    /// The bucket this event falls in.
    pub fn class(&self) -> (r: EventClass)
        ensures
            r == spec_event_class(*self),
    {
        match self {
            InputEvent::KeyDown { .. } | InputEvent::KeyUp { .. } | InputEvent::TextEditing
            | InputEvent::TextInput { .. } => EventClass::Keyboard,
            InputEvent::MouseMotion | InputEvent::MouseButtonDown { .. }
            | InputEvent::MouseButtonUp { .. } | InputEvent::MouseWheel { .. } | InputEvent::Touch
            | InputEvent::Gesture => EventClass::Pointer,
            InputEvent::Other => EventClass::Unclassified,
        }
    }
}

/// The four modifier states the UI library tracks.
#[derive(Clone, Copy, Debug, PartialEq, Eq, Structural)]
pub struct Modifiers {
    pub ctrl: bool,
    pub alt: bool,
    pub shift: bool,
    pub platform: bool,
}

/// Whether either the left or the right variant of a modifier is set.
pub open spec fn spec_either(keymod: u16, left: u16, right: u16) -> bool {
    keymod & left != 0 || keymod & right != 0
}

pub open spec fn spec_modifiers(keymod: u16) -> Modifiers {
    Modifiers {
        ctrl: spec_either(keymod, MOD_LCTRL, MOD_RCTRL),
        alt: spec_either(keymod, MOD_LALT, MOD_RALT),
        shift: spec_either(keymod, MOD_LSHIFT, MOD_RSHIFT),
        platform: spec_either(keymod, MOD_LGUI, MOD_RGUI),
    }
}

/// Reads the modifier booleans out of a key-modifier mask.
pub fn modifiers_of(keymod: u16) -> (r: Modifiers)
    ensures
        r == spec_modifiers(keymod),
{
    Modifiers {
        ctrl: keymod & MOD_LCTRL != 0 || keymod & MOD_RCTRL != 0,
        alt: keymod & MOD_LALT != 0 || keymod & MOD_RALT != 0,
        shift: keymod & MOD_LSHIFT != 0 || keymod & MOD_RSHIFT != 0,
        platform: keymod & MOD_LGUI != 0 || keymod & MOD_RGUI != 0,
    }
}

} // verus!
