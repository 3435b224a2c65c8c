use platinum::ieee::{Float32, Float64};
use platinum::windowing::event::{
    DeviceId, ElementState, KeyEvent, MouseButton, PhysicalPosition, Touch, TouchPhase,
};
use platinum::windowing::keyboard::{
    KeyCode, KeyLocation, LogicalKey, Modifiers, NamedKey, NativeKey, NativeKeyCode, PhysicalKey,
};
use platinum::windowing::{
    AxisMotion, Gesture, InputState, KeyAction, KeyActionState, MouseAction,
};

const KEY_A: KeyCode = KeyCode(19);
const KEY_B: KeyCode = KeyCode(20);
const KEY_C: KeyCode = KeyCode(21);
const ENTER: NamedKey = NamedKey(13);

fn float(x: f32) -> Float32 {
    Float32::from_bits(x.to_bits())
}

fn double(x: f64) -> Float64 {
    Float64::from_bits(x.to_bits())
}

fn at(x: f32, y: f32) -> PhysicalPosition<Float32> {
    PhysicalPosition { x: float(x), y: float(y) }
}

fn letter(key_code: KeyCode, text: &str, state: ElementState, repeat: bool) -> KeyEvent {
    KeyEvent {
        physical_key: PhysicalKey::Code(key_code),
        logical_key: LogicalKey::Character(text.to_string()),
        text: None,
        location: KeyLocation::Standard,
        state,
        repeat,
    }
}

fn down(key_code: KeyCode) -> KeyEvent {
    letter(key_code, "x", ElementState::Pressed, false)
}

fn repeat(key_code: KeyCode) -> KeyEvent {
    letter(key_code, "x", ElementState::Pressed, true)
}

fn up(key_code: KeyCode) -> KeyEvent {
    letter(key_code, "x", ElementState::Released, false)
}

fn named(named_key: NamedKey, state: ElementState) -> KeyEvent {
    KeyEvent {
        physical_key: PhysicalKey::Unidentified(NativeKeyCode::Xkb(36)),
        logical_key: LogicalKey::Named(named_key),
        text: None,
        location: KeyLocation::Standard,
        state,
        repeat: false,
    }
}

fn motion(device: u64, axis: u32, value: f64) -> AxisMotion {
    AxisMotion { device_id: DeviceId(device), axis, value: double(value) }
}

#[test]
fn a_new_state_is_empty() {
    let state = InputState::default();
    assert_eq!(state.cursor_pos(), None);
    assert_eq!(state.cursor_pos_prev(), None);
    assert_eq!(state.cursor_pos_rel(), None);
    assert!(state.mouse_actions().is_empty());
    assert!(state.key_actions().is_empty());
    assert!(state.gestures().is_empty());
    assert!(state.touches().is_empty());
    assert!(state.axis_motions().is_empty());
    assert!(!state.is_key_held_physical(&KEY_A));
    assert!(!state.is_key_held_logical(&ENTER));
    assert!(!state.is_button_held(MouseButton::Left));
    assert!(!state.was_cursor_moving());
    assert!(!state.has_cursor_not_moved());
    assert_eq!(state.modifiers(), Modifiers::default());
    assert_eq!(Modifiers::default(), Modifiers { state: 0, pressed_mods: 0 });
}

#[test]
fn held_follows_the_last_event_of_the_key() {
    let mut state = InputState::default();
    let run = [
        (down(KEY_A), true),
        (down(KEY_B), true),
        (repeat(KEY_A), true),
        (up(KEY_A), false),
        (up(KEY_B), false),
        (down(KEY_A), true),
        (down(KEY_A), true),
        (up(KEY_A), false),
        (up(KEY_A), false),
    ];
    for (event, held_a) in run {
        state.handle_keyboard_input(&event);
        assert_eq!(state.is_key_held_physical(&KEY_A), held_a);
    }
    assert!(!state.is_key_held_physical(&KEY_B));
    assert!(!state.is_key_held_physical(&KEY_C));
}

#[test]
fn held_is_the_parity_of_presses_minus_releases() {
    let mut state = InputState::default();
    let run = [down(KEY_A), repeat(KEY_A), down(KEY_B), up(KEY_A), down(KEY_A), repeat(KEY_A)];
    let mut presses = 0;
    let mut releases = 0;
    for event in run {
        state.handle_keyboard_input(&event);
        if event.physical_key == PhysicalKey::Code(KEY_A) {
            match (event.state, event.repeat) {
                (ElementState::Pressed, false) => presses += 1,
                (ElementState::Pressed, true) => (),
                (ElementState::Released, _) => releases += 1,
            }
        }
        assert_eq!(state.is_key_held_physical(&KEY_A), (presses - releases) % 2 == 1);
    }
    assert_eq!(presses - releases, 1);
}

#[test]
fn a_key_down_on_a_held_key_is_recorded_by_its_repeat_flag() {
    let mut state = InputState::default();
    state.handle_keyboard_input(&down(KEY_A));
    state.handle_keyboard_input(&repeat(KEY_A));
    state.handle_keyboard_input(&down(KEY_A));
    let edges: Vec<KeyActionState> = state.key_actions().iter().map(|action| action.state).collect();
    assert_eq!(
        edges,
        vec![KeyActionState::Pressed, KeyActionState::Repeating, KeyActionState::Pressed]
    );
    assert!(state.is_key_held_physical(&KEY_A));
}

#[test]
fn key_down_repeat_key_up_in_one_iteration() {
    let mut state = InputState::default();
    state.reset();
    assert!(state.key_actions().is_empty());
    assert!(state.mouse_actions().is_empty());
    assert!(state.gestures().is_empty());
    assert!(state.touches().is_empty());
    assert!(state.axis_motions().is_empty());
    assert!(!state.is_key_held_physical(&KEY_A));

    let key = PhysicalKey::Code(KEY_A);
    let a = LogicalKey::Character("a".to_string());
    state.handle_keyboard_input(&letter(KEY_A, "a", ElementState::Pressed, false));
    assert!(state.is_key_held_physical(&KEY_A));
    assert!(!state.is_key_held_physical(&KEY_B));
    assert_eq!(
        state.key_actions(),
        &[KeyAction { physical_key: key, logical_key: a.clone(), state: KeyActionState::Pressed }]
    );

    state.handle_keyboard_input(&letter(KEY_A, "a", ElementState::Pressed, true));
    assert!(state.is_key_held_physical(&KEY_A));
    assert!(!state.is_key_held_physical(&KEY_B));
    assert_eq!(
        state.key_actions(),
        &[
            KeyAction { physical_key: key, logical_key: a.clone(), state: KeyActionState::Pressed },
            KeyAction {
                physical_key: key,
                logical_key: a.clone(),
                state: KeyActionState::Repeating
            },
        ]
    );

    state.handle_keyboard_input(&letter(KEY_A, "a", ElementState::Released, false));
    assert!(!state.is_key_held_physical(&KEY_A));
    assert!(!state.is_key_held_physical(&KEY_B));
    assert_eq!(state.key_actions().len(), 3);
    assert_eq!(state.key_actions()[2].state, KeyActionState::Released);
    assert_eq!(state.key_actions()[2].physical_key, key);
}

#[test]
fn a_key_stays_held_from_one_iteration_to_the_next() {
    let mut state = InputState::default();
    state.handle_keyboard_input(&down(KEY_A));
    state.reset();
    assert!(state.key_actions().is_empty());
    assert!(state.is_key_held_physical(&KEY_A));
    state.handle_keyboard_input(&up(KEY_A));
    assert!(!state.is_key_held_physical(&KEY_A));
    assert_eq!(state.key_actions().len(), 1);
    assert_eq!(state.key_actions()[0].state, KeyActionState::Released);
}

#[test]
fn reset_keeps_what_is_held() {
    let mut state = InputState::default();
    state.handle_keyboard_input(&down(KEY_A));
    state.handle_keyboard_input(&named(ENTER, ElementState::Pressed));
    state.handle_mouse_input(ElementState::Pressed, MouseButton::Right);
    state.handle_modifiers_changed(Modifiers { state: 0b100, pressed_mods: 0b1 });
    state.handle_gesture(Gesture::DoubleTap { device_id: DeviceId(1) });
    state.handle_touch(Touch {
        device_id: DeviceId(1),
        phase: TouchPhase::Started,
        location: PhysicalPosition { x: double(1.0), y: double(2.0) },
        force: None,
        id: 7,
    });
    state.handle_axis_motion(motion(1, 0, 0.5));
    state.handle_cursor_moved(Some(at(3.0, 4.0)));

    state.reset();

    assert!(state.mouse_actions().is_empty());
    assert!(state.key_actions().is_empty());
    assert!(state.gestures().is_empty());
    assert!(state.touches().is_empty());
    assert!(state.axis_motions().is_empty());
    assert!(state.is_key_held_physical(&KEY_A));
    assert!(state.is_key_held_logical(&ENTER));
    assert!(state.is_button_held(MouseButton::Right));
    assert!(!state.is_button_held(MouseButton::Left));
    assert_eq!(state.modifiers(), Modifiers { state: 0b100, pressed_mods: 0b1 });
    assert_eq!(state.cursor_pos(), Some(at(3.0, 4.0)));
    assert_eq!(state.cursor_pos_prev(), Some(at(3.0, 4.0)));
    assert!(!state.has_cursor_not_moved());
}

#[test]
fn physical_and_logical_sets_are_kept_apart() {
    let mut state = InputState::default();
    // A key with a code and no name.
    state.handle_keyboard_input(&down(KEY_A));
    assert!(state.is_key_held_physical(&KEY_A));
    assert!(!state.is_key_held_logical(&NamedKey(KEY_A.0)));
    // A key with a name and no code.
    state.handle_keyboard_input(&named(ENTER, ElementState::Pressed));
    assert!(state.is_key_held_logical(&ENTER));
    assert!(!state.is_key_held_physical(&KeyCode(ENTER.0)));
    state.handle_keyboard_input(&named(ENTER, ElementState::Released));
    assert!(!state.is_key_held_logical(&ENTER));
    assert!(state.is_key_held_physical(&KEY_A));
    assert_eq!(state.key_actions().len(), 3);
}

#[test]
fn key_queries_look_at_this_iteration() {
    let mut state = InputState::default();
    let a = LogicalKey::Character("a".to_string());
    let b = LogicalKey::Character("b".to_string());
    state.handle_keyboard_input(&letter(KEY_A, "a", ElementState::Pressed, false));
    state.handle_keyboard_input(&letter(KEY_B, "b", ElementState::Pressed, true));
    state.handle_keyboard_input(&named(ENTER, ElementState::Released));

    assert!(state.was_key_pressed_physical(&PhysicalKey::Code(KEY_A)));
    assert!(!state.was_key_repeating_physical(&PhysicalKey::Code(KEY_A)));
    assert!(!state.was_key_released_physical(&PhysicalKey::Code(KEY_A)));
    assert!(state.was_key_repeating_physical(&PhysicalKey::Code(KEY_B)));
    assert!(!state.was_key_pressed_physical(&PhysicalKey::Code(KEY_B)));
    assert!(state.was_key_released_physical(&PhysicalKey::Unidentified(NativeKeyCode::Xkb(36))));
    assert!(!state.was_key_released_physical(&PhysicalKey::Unidentified(NativeKeyCode::Xkb(37))));
    assert!(state.was_key_operated_physical(&PhysicalKey::Code(KEY_A), KeyActionState::Pressed));
    assert!(!state.was_key_operated_physical(&PhysicalKey::Code(KEY_C), KeyActionState::Pressed));

    assert!(state.was_key_pressed_logical(&a));
    assert!(!state.was_key_pressed_logical(&b));
    assert!(state.was_key_repeating_logical(&b));
    assert!(state.was_key_released_logical(&LogicalKey::Named(ENTER)));
    assert!(!state.was_key_released_logical(&LogicalKey::Named(NamedKey(14))));
    assert!(state.was_key_operated_logical(&a, KeyActionState::Pressed));
    assert!(!state.was_key_operated_logical(&a, KeyActionState::Released));

    state.reset();
    assert!(!state.was_key_pressed_physical(&PhysicalKey::Code(KEY_A)));
    assert!(!state.was_key_pressed_logical(&a));
}

#[test]
fn key_action_matches_key_and_edge() {
    let action = KeyAction {
        physical_key: PhysicalKey::Code(KEY_A),
        logical_key: LogicalKey::Unidentified(NativeKey::Web("Fn".to_string())),
        state: KeyActionState::Repeating,
    };
    assert!(action.is_physical(&PhysicalKey::Code(KEY_A), KeyActionState::Repeating));
    assert!(!action.is_physical(&PhysicalKey::Code(KEY_A), KeyActionState::Pressed));
    assert!(!action.is_physical(&PhysicalKey::Code(KEY_B), KeyActionState::Repeating));
    let same = LogicalKey::Unidentified(NativeKey::Web("Fn".to_string()));
    let other = LogicalKey::Unidentified(NativeKey::Web("Fx".to_string()));
    assert!(action.is_logical(&same, KeyActionState::Repeating));
    assert!(!action.is_logical(&other, KeyActionState::Repeating));
    assert!(!action.is_logical(&same, KeyActionState::Released));
    assert!(!action.is_logical(&LogicalKey::Dead(None), KeyActionState::Repeating));
    assert_eq!(action.clone(), action);
}

#[test]
fn logical_keys_compare_by_variant_and_payload() {
    assert_eq!(LogicalKey::Dead(Some('^')), LogicalKey::Dead(Some('^')));
    assert_ne!(LogicalKey::Dead(Some('^')), LogicalKey::Dead(None));
    assert_ne!(LogicalKey::Named(NamedKey(1)), LogicalKey::Named(NamedKey(2)));
    assert_ne!(LogicalKey::Named(NamedKey(1)), LogicalKey::Character("1".to_string()));
    assert_eq!(
        LogicalKey::Unidentified(NativeKey::Android(4)),
        LogicalKey::Unidentified(NativeKey::Android(4))
    );
    assert_ne!(
        LogicalKey::Unidentified(NativeKey::Android(4)),
        LogicalKey::Unidentified(NativeKey::Xkb(4))
    );
    assert_ne!(NativeKey::MacOS(4), NativeKey::Windows(4));
    assert_eq!(NativeKey::Unidentified, NativeKey::Unidentified);
    let text = LogicalKey::Character("é".to_string());
    assert_eq!(text.clone(), text);
}

#[test]
fn key_action_state_maps_to_element_state() {
    assert_eq!(ElementState::from(KeyActionState::Pressed), ElementState::Pressed);
    assert_eq!(ElementState::from(KeyActionState::Repeating), ElementState::Pressed);
    assert_eq!(ElementState::from(KeyActionState::Released), ElementState::Released);
    assert!(ElementState::Pressed.is_pressed());
    assert!(!ElementState::Released.is_pressed());
}

#[test]
fn mouse_buttons_are_held_one_by_one() {
    let buttons = [
        MouseButton::Left,
        MouseButton::Right,
        MouseButton::Middle,
        MouseButton::Back,
        MouseButton::Forward,
    ];
    for pressed in buttons {
        let mut state = InputState::default();
        state.handle_mouse_input(ElementState::Pressed, pressed);
        for button in buttons {
            assert_eq!(state.is_button_held(button), button == pressed);
        }
        state.handle_mouse_input(ElementState::Released, pressed);
        assert!(!state.is_button_held(pressed));
        assert_eq!(
            state.mouse_actions(),
            &[
                MouseAction { button: pressed, state: ElementState::Pressed },
                MouseAction { button: pressed, state: ElementState::Released },
            ]
        );
    }
}

#[test]
fn other_mouse_buttons_are_recorded_but_not_held() {
    let mut state = InputState::default();
    state.handle_mouse_input(ElementState::Pressed, MouseButton::Other(9));
    assert!(!state.is_button_held(MouseButton::Other(9)));
    assert!(!state.is_button_held(MouseButton::Left));
    assert_eq!(
        state.mouse_actions(),
        &[MouseAction { button: MouseButton::Other(9), state: ElementState::Pressed }]
    );
    assert!(state.has_cursor_not_moved());
}

#[test]
fn click_and_drag_are_told_apart() {
    let mut state = InputState::default();
    state.handle_cursor_moved(Some(at(10.0, 10.0)));
    state.reset();
    assert!(!state.has_cursor_not_moved());

    state.handle_mouse_input(ElementState::Pressed, MouseButton::Left);
    assert!(state.has_cursor_not_moved());
    assert!(!state.was_cursor_moving());

    state.handle_cursor_moved(Some(at(11.0, 10.0)));
    assert!(state.was_cursor_moving());
    assert!(!state.has_cursor_not_moved());

    state.reset();
    assert!(!state.was_cursor_moving());
    state.handle_mouse_input(ElementState::Pressed, MouseButton::Left);
    assert!(state.has_cursor_not_moved());
    state.handle_mouse_input(ElementState::Released, MouseButton::Left);
    assert!(!state.has_cursor_not_moved());
}

#[test]
fn a_move_onto_the_same_spot_still_ends_the_click() {
    let mut state = InputState::default();
    state.handle_cursor_moved(Some(at(10.0, 10.0)));
    state.reset();
    state.handle_mouse_input(ElementState::Pressed, MouseButton::Left);
    state.handle_cursor_moved(Some(at(10.0, 10.0)));
    assert!(!state.was_cursor_moving());
    assert!(!state.has_cursor_not_moved());
}

#[test]
fn cursor_positions_compare_as_numbers() {
    let mut state = InputState::default();
    state.handle_cursor_moved(Some(at(0.0, 5.0)));
    state.reset();
    state.handle_cursor_moved(Some(at(-0.0, 5.0)));
    assert_ne!(state.cursor_pos(), state.cursor_pos_prev());
    assert!(!state.was_cursor_moving());
}

#[test]
fn cursor_pos_rel_gives_both_samples() {
    let mut state = InputState::default();
    state.handle_cursor_moved(Some(at(10.0, 20.0)));
    assert_eq!(state.cursor_pos_rel(), None);
    assert!(state.was_cursor_moving());
    state.reset();
    state.handle_cursor_moved(Some(at(13.5, 18.0)));
    assert_eq!(state.cursor_pos_rel(), Some((at(13.5, 18.0), at(10.0, 20.0))));
    let (pos, pos_prev) = state.cursor_pos_rel().unwrap();
    let dx = f32::from_bits(pos.x.to_bits()) - f32::from_bits(pos_prev.x.to_bits());
    let dy = f32::from_bits(pos.y.to_bits()) - f32::from_bits(pos_prev.y.to_bits());
    assert_eq!((dx, dy), (3.5, -2.0));
    state.handle_cursor_moved(None);
    assert_eq!(state.cursor_pos(), None);
    assert_eq!(state.cursor_pos_prev(), Some(at(10.0, 20.0)));
    assert_eq!(state.cursor_pos_rel(), None);
}

#[test]
fn gestures_and_touches_are_appended() {
    let mut state = InputState::default();
    let pinch =
        Gesture::Pinch { device_id: DeviceId(3), delta: double(0.25), phase: TouchPhase::Moved };
    let pan = Gesture::Pan { device_id: DeviceId(4), delta: at(1.0, 2.0), phase: TouchPhase::Ended };
    state.handle_gesture(pinch);
    state.handle_gesture(pan);
    assert_eq!(state.gestures(), &[pinch, pan]);
    let touch = Touch {
        device_id: DeviceId(5),
        phase: TouchPhase::Started,
        location: PhysicalPosition { x: double(7.0), y: double(8.0) },
        force: None,
        id: 1,
    };
    state.handle_touch(touch);
    assert_eq!(state.touches(), &[touch]);
}

#[test]
fn gesture_names_its_device() {
    let gestures = [
        Gesture::Pinch { device_id: DeviceId(1), delta: double(0.0), phase: TouchPhase::Started },
        Gesture::Pan { device_id: DeviceId(2), delta: at(0.0, 0.0), phase: TouchPhase::Moved },
        Gesture::DoubleTap { device_id: DeviceId(3) },
        Gesture::Rotation { device_id: DeviceId(4), delta: float(0.5), phase: TouchPhase::Ended },
        Gesture::TouchpadPressure { device_id: DeviceId(5), pressure: float(0.5), stage: 2 },
    ];
    for (index, gesture) in gestures.iter().enumerate() {
        assert_eq!(gesture.device_id(), DeviceId(index as u64 + 1));
    }
}

#[test]
fn axis_motion_is_filtered_by_axis_and_device() {
    let mut state = InputState::default();
    state.handle_axis_motion(motion(1, 0, 0.5));
    state.handle_axis_motion(motion(2, 0, 0.25));
    state.handle_axis_motion(motion(1, 1, 8.0));
    state.handle_axis_motion(motion(1, 0, -2.0));
    assert_eq!(state.axis_motions().len(), 4);

    assert_eq!(state.axis_motion_for(0, None), vec![double(0.5), double(0.25), double(-2.0)]);
    assert_eq!(state.axis_motion_for(0, Some(DeviceId(1))), vec![double(0.5), double(-2.0)]);
    assert_eq!(state.axis_motion_for(0, Some(DeviceId(2))), vec![double(0.25)]);
    assert_eq!(state.axis_motion_for(1, Some(DeviceId(2))), vec![]);
    assert_eq!(state.axis_motion_for(2, None), vec![]);
    let sum: f64 =
        state.axis_motion_for(0, None).iter().map(|value| f64::from_bits(value.to_bits())).sum();
    assert_eq!(sum, -1.25);

    assert!(state.was_axis_moving(0, None));
    assert!(state.was_axis_moving(1, Some(DeviceId(1))));
    assert!(!state.was_axis_moving(1, Some(DeviceId(2))));
    assert!(!state.was_axis_moving(2, None));
    assert!(motion(1, 0, 0.5).is_on(0, Some(DeviceId(1))));
    assert!(!motion(1, 0, 0.5).is_on(0, Some(DeviceId(2))));

    state.reset();
    assert!(!state.was_axis_moving(0, None));
    assert_eq!(state.axis_motion_for(0, None), vec![]);
}

#[test]
fn a_clone_holds_what_the_state_held() {
    let mut state = InputState::default();
    state.handle_keyboard_input(&down(KEY_A));
    state.handle_keyboard_input(&named(ENTER, ElementState::Pressed));
    state.handle_mouse_input(ElementState::Pressed, MouseButton::Back);
    state.handle_cursor_moved(Some(at(3.0, 4.0)));
    state.handle_axis_motion(motion(1, 0, 0.5));
    state.handle_gesture(Gesture::DoubleTap { device_id: DeviceId(1) });

    let copy = state.clone();
    assert_eq!(copy, state);
    assert!(copy.is_key_held_physical(&KEY_A));
    assert!(copy.is_key_held_logical(&ENTER));
    assert!(!copy.is_key_held_physical(&KEY_B));
    assert!(copy.is_button_held(MouseButton::Back));
    assert_eq!(copy.key_actions(), state.key_actions());
    assert_eq!(copy.mouse_actions(), state.mouse_actions());
    assert_eq!(copy.gestures(), state.gestures());
    assert_eq!(copy.axis_motions(), state.axis_motions());
    assert_eq!(copy.cursor_pos(), Some(at(3.0, 4.0)));

    state.handle_keyboard_input(&up(KEY_A));
    state.handle_keyboard_input(&down(KEY_B));
    assert!(copy.is_key_held_physical(&KEY_A));
    assert!(!copy.is_key_held_physical(&KEY_B));
    assert_eq!(copy.key_actions().len(), 2);
    assert_ne!(copy, state);
}
