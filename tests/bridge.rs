use imgui_sdl_bridge::bridge::{
    clipboard_reply, BridgeState, CursorAction, CursorShape, MouseSnapshot, WindowGeometry,
};
use imgui_sdl_bridge::event::{
    modifiers_of, EventClass, InputEvent, Modifiers, MouseButton, MOD_LALT, MOD_LCTRL, MOD_LGUI,
    MOD_LSHIFT, MOD_RALT, MOD_RCTRL, MOD_RGUI, MOD_RSHIFT,
};
use imgui_sdl_bridge::keymap::{key_table, scancode_of, UiKey, KEY_TABLE_LEN, N_UI_KEYS};
use imgui_sdl_bridge::ui_input::{Ratio, UiInput};

const SCANCODE_A: u32 = 4;

fn setup() -> (BridgeState, UiInput) {
    let mut io = UiInput::new();
    let state = BridgeState::initialize(&mut io);
    (state, io)
}

fn geometry() -> WindowGeometry {
    WindowGeometry { width: 800, height: 600, drawable_width: 1600, drawable_height: 1200 }
}

fn mouse_up() -> MouseSnapshot {
    MouseSnapshot { x: 10, y: 20, buttons: [false; 5] }
}

#[test]
fn initialize_starts_clean() {
    let (state, io) = setup();
    assert_eq!(state.pending_mouse_press, [false; 5]);
    assert!(!state.suppress_keyboard);
    assert!(!state.suppress_mouse);
    assert_eq!(state.last_applied_cursor, None);
    assert_eq!(io.key_map.len(), N_UI_KEYS);
    assert!(io.key_map.contains(&(UiKey::Tab, 43)));
    assert!(io.key_map.contains(&(UiKey::Z, 29)));
    assert_eq!(io.keys_down.len(), KEY_TABLE_LEN);
}

#[test]
fn key_down_with_ctrl_then_key_up_clears() {
    let (mut state, mut io) = setup();
    state.handle_event(&mut io, &InputEvent::KeyDown { scancode: Some(SCANCODE_A), keymod: MOD_LCTRL });
    assert!(io.key_down(SCANCODE_A));
    assert!(io.key_ctrl);
    assert!(!io.key_alt && !io.key_shift && !io.key_super);
    state.handle_event(&mut io, &InputEvent::KeyUp { scancode: Some(SCANCODE_A), keymod: 0 });
    assert!(!io.key_down(SCANCODE_A));
    assert!(!io.key_ctrl && !io.key_alt && !io.key_shift && !io.key_super);
}

#[test]
fn right_hand_modifiers_count() {
    assert_eq!(
        modifiers_of(MOD_RCTRL | MOD_RALT | MOD_RSHIFT | MOD_RGUI),
        Modifiers { ctrl: true, alt: true, shift: true, platform: true }
    );
    assert_eq!(
        modifiers_of(MOD_LALT | MOD_LSHIFT | MOD_LGUI),
        Modifiers { ctrl: false, alt: true, shift: true, platform: true }
    );
    // Num lock and caps lock are no modifiers of the UI library.
    assert_eq!(
        modifiers_of(0x1000 | 0x2000),
        Modifiers { ctrl: false, alt: false, shift: false, platform: false }
    );
}

#[test]
fn key_without_scancode_only_updates_modifiers() {
    let (mut state, mut io) = setup();
    let before = io.keys_down.clone();
    state.handle_event(&mut io, &InputEvent::KeyDown { scancode: None, keymod: MOD_RSHIFT });
    assert_eq!(io.keys_down, before);
    assert!(io.key_shift);
}

#[test]
fn scancode_outside_table_is_ignored() {
    let (mut state, mut io) = setup();
    let before = io.keys_down.clone();
    state.handle_event(&mut io, &InputEvent::KeyDown { scancode: Some(512), keymod: 0 });
    assert_eq!(io.keys_down, before);
    assert!(!io.key_down(512));
}

#[test]
fn press_and_release_between_frames_still_counts() {
    let (mut state, mut io) = setup();
    state.handle_event(&mut io, &InputEvent::MouseButtonDown { button: MouseButton::Left });
    state.handle_event(&mut io, &InputEvent::MouseButtonUp { button: MouseButton::Left });
    let capture = state.begin_frame(&mut io, &geometry(), &mouse_up());
    assert!(io.mouse_down[0]);
    assert!(capture);
    let capture = state.begin_frame(&mut io, &geometry(), &mouse_up());
    assert!(!io.mouse_down[0]);
    assert!(!capture);
}

#[test]
fn every_known_button_has_its_slot() {
    let buttons = [
        MouseButton::Left,
        MouseButton::Right,
        MouseButton::Middle,
        MouseButton::Extra1,
        MouseButton::Extra2,
    ];
    for (i, b) in buttons.iter().enumerate() {
        let (mut state, mut io) = setup();
        state.handle_event(&mut io, &InputEvent::MouseButtonDown { button: *b });
        let mut expected = [false; 5];
        expected[i] = true;
        assert_eq!(state.pending_mouse_press, expected);
        state.begin_frame(&mut io, &geometry(), &mouse_up());
        assert_eq!(io.mouse_down, expected);
    }
}

#[test]
fn unknown_button_is_ignored() {
    let (mut state, mut io) = setup();
    state.handle_event(&mut io, &InputEvent::MouseButtonDown { button: MouseButton::Unknown });
    assert_eq!(state.pending_mouse_press, [false; 5]);
}

#[test]
fn pending_presses_cleared_by_begin_frame() {
    let (mut state, mut io) = setup();
    state.handle_event(&mut io, &InputEvent::MouseButtonDown { button: MouseButton::Right });
    state.handle_event(&mut io, &InputEvent::MouseButtonDown { button: MouseButton::Extra2 });
    assert_eq!(state.pending_mouse_press, [false, true, false, false, true]);
    state.begin_frame(&mut io, &geometry(), &mouse_up());
    assert_eq!(state.pending_mouse_press, [false; 5]);
    assert_eq!(io.mouse_down, [false, true, false, false, true]);
}

#[test]
fn polled_state_alone_counts_as_down() {
    let (mut state, mut io) = setup();
    let mouse = MouseSnapshot { x: -5, y: 7, buttons: [false, false, true, false, false] };
    let capture = state.begin_frame(&mut io, &geometry(), &mouse);
    assert_eq!(io.mouse_down, [false, false, true, false, false]);
    assert_eq!(io.mouse_pos, (-5, 7));
    assert!(capture);
}

#[test]
fn begin_frame_sets_size_and_scale() {
    let (mut state, mut io) = setup();
    state.begin_frame(&mut io, &geometry(), &mouse_up());
    assert_eq!(io.display_size, (800, 600));
    assert_eq!(io.framebuffer_scale, (Ratio { num: 1600, den: 800 }, Ratio { num: 1200, den: 600 }));
    assert_eq!(io.mouse_pos, (10, 20));
}

#[test]
fn keyboard_suppression_follows_last_frame() {
    let (mut state, mut io) = setup();
    let key = InputEvent::KeyDown { scancode: Some(SCANCODE_A), keymod: 0 };
    assert!(!state.should_suppress(&key));
    io.want_capture_keyboard = true;
    state.begin_frame(&mut io, &geometry(), &mouse_up());
    // A later change of the UI library's wish waits for the next frame.
    io.want_capture_keyboard = false;
    state.handle_event(&mut io, &key);
    state.handle_event(&mut io, &InputEvent::TextInput { text: "x".to_string() });
    assert!(state.should_suppress(&key));
    assert!(state.should_suppress(&InputEvent::TextEditing));
    assert!(!state.should_suppress(&InputEvent::MouseMotion));
    state.begin_frame(&mut io, &geometry(), &mouse_up());
    assert!(!state.should_suppress(&key));
}

#[test]
fn pointer_suppression_and_other_events() {
    let (mut state, mut io) = setup();
    io.want_capture_mouse = true;
    state.begin_frame(&mut io, &geometry(), &mouse_up());
    let pointer = [
        InputEvent::MouseMotion,
        InputEvent::MouseButtonDown { button: MouseButton::Left },
        InputEvent::MouseButtonUp { button: MouseButton::Left },
        InputEvent::MouseWheel { y: 1 },
        InputEvent::Touch,
        InputEvent::Gesture,
    ];
    for e in pointer.iter() {
        assert_eq!(e.class(), EventClass::Pointer);
        assert!(state.should_suppress(e));
    }
    assert!(!state.should_suppress(&InputEvent::KeyUp { scancode: None, keymod: 0 }));
    assert_eq!(InputEvent::Other.class(), EventClass::Unclassified);
    assert!(!state.should_suppress(&InputEvent::Other));
}

#[test]
fn presses_recorded_while_suppressed() {
    let (mut state, mut io) = setup();
    io.want_capture_mouse = true;
    state.begin_frame(&mut io, &geometry(), &mouse_up());
    let down = InputEvent::MouseButtonDown { button: MouseButton::Middle };
    assert!(state.should_suppress(&down));
    state.handle_event(&mut io, &down);
    state.begin_frame(&mut io, &geometry(), &mouse_up());
    assert!(io.mouse_down[2]);
}

#[test]
fn last_wheel_event_wins() {
    let (mut state, mut io) = setup();
    state.handle_event(&mut io, &InputEvent::MouseWheel { y: 3 });
    state.handle_event(&mut io, &InputEvent::MouseWheel { y: -1 });
    assert_eq!(io.mouse_wheel, -1);
}

#[test]
fn text_input_appends_in_order() {
    let (mut state, mut io) = setup();
    state.handle_event(&mut io, &InputEvent::TextInput { text: "ab".to_string() });
    state.handle_event(&mut io, &InputEvent::TextInput { text: "é€".to_string() });
    state.handle_event(&mut io, &InputEvent::TextInput { text: String::new() });
    assert_eq!(io.input_queue, vec!['a', 'b', 'é', '€']);
}

#[test]
fn other_events_change_nothing() {
    let (mut state, mut io) = setup();
    state.handle_event(&mut io, &InputEvent::Other);
    state.handle_event(&mut io, &InputEvent::MouseMotion);
    state.handle_event(&mut io, &InputEvent::TextEditing);
    assert_eq!(state.pending_mouse_press, [false; 5]);
    assert_eq!(io.mouse_wheel, 0);
    assert!(io.input_queue.is_empty());
    assert!(!io.key_ctrl);
}

#[test]
fn same_cursor_twice_activates_once() {
    let (mut state, _io) = setup();
    let first = state.end_frame(Some(CursorShape::Hand), false, false);
    let second = state.end_frame(Some(CursorShape::Hand), false, false);
    assert_eq!(first, CursorAction::ShowAndSet(CursorShape::Hand));
    assert_eq!(second, CursorAction::Show);
    assert_eq!(state.last_applied_cursor, Some(CursorShape::Hand));
}

#[test]
fn different_cursor_constructs_again() {
    let (mut state, _io) = setup();
    state.end_frame(Some(CursorShape::Arrow), false, false);
    let action = state.end_frame(Some(CursorShape::TextInput), false, false);
    assert_eq!(action, CursorAction::ShowAndSet(CursorShape::TextInput));
    assert_eq!(state.last_applied_cursor, Some(CursorShape::TextInput));
}

#[test]
fn own_cursor_or_none_hides() {
    let (mut state, _io) = setup();
    state.end_frame(Some(CursorShape::ResizeNS), false, false);
    assert_eq!(state.end_frame(Some(CursorShape::ResizeNS), true, false), CursorAction::Hide);
    assert_eq!(state.last_applied_cursor, None);
    state.end_frame(Some(CursorShape::NotAllowed), false, false);
    assert_eq!(state.end_frame(None, false, false), CursorAction::Hide);
    assert_eq!(state.last_applied_cursor, None);
    // After hiding, the same shape has to be constructed again.
    assert_eq!(
        state.end_frame(Some(CursorShape::NotAllowed), false, false),
        CursorAction::ShowAndSet(CursorShape::NotAllowed)
    );
}

#[test]
fn disabled_cursor_changes_do_nothing() {
    let (mut state, _io) = setup();
    state.end_frame(Some(CursorShape::ResizeAll), false, false);
    assert_eq!(state.end_frame(None, false, true), CursorAction::Unchanged);
    assert_eq!(state.end_frame(Some(CursorShape::Hand), false, true), CursorAction::Unchanged);
    assert_eq!(state.last_applied_cursor, Some(CursorShape::ResizeAll));
}

#[test]
fn key_table_is_one_to_one() {
    let table = key_table();
    assert_eq!(table.len(), N_UI_KEYS);
    for i in 0..table.len() {
        assert_eq!(table[i].1, scancode_of(table[i].0));
        for j in 0..table.len() {
            if i != j {
                assert_ne!(table[i].0, table[j].0);
                assert_ne!(table[i].1, table[j].1);
            }
        }
    }
    assert_eq!(scancode_of(UiKey::Enter), 40);
    assert_eq!(scancode_of(UiKey::LeftArrow), 80);
    assert_eq!(scancode_of(UiKey::A), SCANCODE_A);
}

#[test]
fn clipboard_reply_cases() {
    assert_eq!(clipboard_reply(true, Ok("hi".to_string())), Some("hi".to_string()));
    assert_eq!(clipboard_reply(false, Ok(String::new())), None);
    assert_eq!(clipboard_reply(true, Err("no clipboard".to_string())), None);
}
