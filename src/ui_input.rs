//! The UI library's per-frame input accumulator, as the bridge fills it.
use vstd::prelude::*;
use crate::event::N_BUTTONS;
use crate::keymap::{UiKey, KEY_TABLE_LEN};

verus! {

/// A non-negative rational `num / den`, used for the framebuffer scale.
#[derive(Clone, Copy, Debug, PartialEq, Eq, Structural)]
pub struct Ratio {
    pub num: u32,
    pub den: u32,
}

/// The fields of the UI library's input snapshot that the bridge reads or writes.
pub struct UiInput {
    /// Logical window size, width then height.
    pub display_size: (u32, u32),
    /// Drawable size over logical size, per axis.
    pub framebuffer_scale: (Ratio, Ratio),
    /// Logical key to physical scancode, installed at initialization.
    pub key_map: Vec<(UiKey, u32)>,
    /// Down state of each physical scancode.
    pub keys_down: Vec<bool>,
    /// Down state of each logical mouse button.
    pub mouse_down: [bool; N_BUTTONS],
    /// Pointer position in window coordinates.
    pub mouse_pos: (i32, i32),
    /// Vertical wheel delta of the frame.
    pub mouse_wheel: i32,
    pub key_ctrl: bool,
    pub key_alt: bool,
    pub key_shift: bool,
    pub key_super: bool,
    /// Characters typed since the UI library last consumed them, in order.
    pub input_queue: Vec<char>,
    /// Set by the UI library's layout pass: it wants the keyboard for itself.
    pub want_capture_keyboard: bool,
    /// Set by the UI library's layout pass: it wants the mouse for itself.
    pub want_capture_mouse: bool,
}

impl UiInput {
    /// The key-state table covers every scancode.
    pub open spec fn wf(&self) -> bool {
        self.keys_down@.len() == KEY_TABLE_LEN
    }

    /// An empty snapshot: nothing down, nothing queued, no key map.
    pub fn new() -> (r: UiInput)
        ensures
            r.wf(),
            forall|i: int| 0 <= i < KEY_TABLE_LEN ==> !#[trigger] r.keys_down@[i],
            forall|i: int| 0 <= i < N_BUTTONS ==> !#[trigger] r.mouse_down@[i],
            r.key_map@.len() == 0,
            r.input_queue@.len() == 0,
            r.mouse_wheel == 0,
            !r.key_ctrl && !r.key_alt && !r.key_shift && !r.key_super,
            !r.want_capture_keyboard && !r.want_capture_mouse,
    {
        let mut keys_down: Vec<bool> = Vec::new();
        for i in 0..KEY_TABLE_LEN
            invariant
                keys_down@.len() == i,
                forall|j: int| 0 <= j < i ==> !#[trigger] keys_down@[j],
        {
            keys_down.push(false);
        }
        UiInput {
            display_size: (0, 0),
            framebuffer_scale: (Ratio { num: 1, den: 1 }, Ratio { num: 1, den: 1 }),
            key_map: Vec::new(),
            keys_down,
            mouse_down: [false, false, false, false, false],
            mouse_pos: (0, 0),
            mouse_wheel: 0,
            key_ctrl: false,
            key_alt: false,
            key_shift: false,
            key_super: false,
            input_queue: Vec::new(),
            want_capture_keyboard: false,
            want_capture_mouse: false,
        }
    }

    /// Whether the key with this scancode is down; `false` outside the table.
    pub fn key_down(&self, scancode: u32) -> (r: bool)
        requires
            self.wf(),
        ensures
            r == (scancode < KEY_TABLE_LEN && self.keys_down@[scancode as int]),
    {
        if (scancode as usize) < self.keys_down.len() {
            self.keys_down[scancode as usize]
        } else {
            false
        }
    }
}

} // verus!
