use platinum::ieee::{Float32, Float64};
use platinum::windowing::event::{
    DeviceId, ElementState, Ime, KeyEvent, MouseButton, MouseScrollDelta, PhysicalPosition,
    PhysicalSize, Theme, Touch, TouchPhase, WindowEvent, WindowId,
};
use platinum::windowing::keyboard::{
    KeyCode, KeyLocation, LogicalKey, Modifiers, NamedKey, PhysicalKey,
};
use platinum::windowing::{
    AxisMotion, Callback, Gesture, KeyActionState, LoopAction, MouseAction, WindowState,
};
use std::path::PathBuf;

const MOUSE: DeviceId = DeviceId(1);

fn float(x: f32) -> Float32 {
    Float32::from_bits(x.to_bits())
}

fn double(x: f64) -> Float64 {
    Float64::from_bits(x.to_bits())
}

fn at(x: f32, y: f32) -> PhysicalPosition<Float32> {
    PhysicalPosition { x: float(x), y: float(y) }
}

fn window() -> WindowState<&'static str> {
    WindowState::new(
        "the window",
        WindowId(11),
        double(1.5),
        PhysicalSize { width: 1280, height: 720 },
    )
}

fn key(code: u32, name: Option<u32>, state: ElementState, repeat: bool) -> KeyEvent {
    KeyEvent {
        physical_key: PhysicalKey::Code(KeyCode(code)),
        logical_key: match name {
            Some(name) => LogicalKey::Named(NamedKey(name)),
            None => LogicalKey::Character("k".to_string()),
        },
        text: Some("k".to_string()),
        location: KeyLocation::Standard,
        state,
        repeat,
    }
}

fn key_input(event: KeyEvent) -> WindowEvent {
    WindowEvent::KeyboardInput { device_id: DeviceId(2), event, is_synthetic: false }
}

fn moved(x: f32, y: f32) -> WindowEvent {
    WindowEvent::CursorMoved { device_id: MOUSE, position: at(x, y) }
}

#[test]
fn a_new_window_state_holds_what_it_was_given() {
    let state = window();
    assert_eq!(*state.window_holder(), "the window");
    assert_eq!(state.window_id(), WindowId(11));
    assert_eq!(state.scale_factor(), double(1.5));
    assert_eq!(state.window_size(), PhysicalSize { width: 1280, height: 720 });
    assert_eq!(state.dropped_file(), None);
    assert!(state.input().key_actions().is_empty());
    assert_eq!(state.input().cursor_pos(), None);
}

#[test]
fn the_first_resume_is_told_from_the_later_ones() {
    let mut state = window();
    assert!(state.mark_resumed());
    assert!(!state.mark_resumed());
    assert!(!state.mark_resumed());
}

#[test]
fn clip_keeps_what_is_in_the_frame() {
    let state = window();
    for (x, y) in [(0.0, 0.0), (1280.0, 720.0), (640.5, 3.25), (-0.0, 720.0), (1280.0, 0.0)] {
        assert_eq!(state.clip_pos_in_frame(at(x, y)), Some(at(x, y)));
    }
    for (x, y) in [
        (-0.001, 5.0),
        (5.0, -0.001),
        (1280.001, 5.0),
        (5.0, 720.001),
        (f32::NAN, 5.0),
        (5.0, f32::NAN),
        (f32::INFINITY, 5.0),
        (5.0, f32::NEG_INFINITY),
        (-1.0, -1.0),
    ] {
        assert_eq!(state.clip_pos_in_frame(at(x, y)), None);
    }
}

#[test]
fn close_and_redraw_change_nothing() {
    let mut state = window();
    assert_eq!(state.handle_window_event(WindowEvent::CloseRequested), Some(Callback::CloseRequested));
    assert_eq!(state.handle_window_event(WindowEvent::RedrawRequested), Some(Callback::Render));
    assert_eq!(
        state.handle_window_event(WindowEvent::Occluded(true)),
        Some(Callback::OcclusionChanged(true))
    );
    assert!(state.input().key_actions().is_empty());
    assert_eq!(state.window_size(), PhysicalSize { width: 1280, height: 720 });
}

#[test]
fn events_without_a_callback() {
    let mut state = window();
    let silent = [
        WindowEvent::Destroyed,
        WindowEvent::ActivationTokenDone,
        WindowEvent::Moved(PhysicalPosition { x: -5, y: 9 }),
        WindowEvent::CursorEntered { device_id: MOUSE },
        WindowEvent::CursorLeft { device_id: MOUSE },
        WindowEvent::ThemeChanged(Theme::Dark),
    ];
    for event in silent {
        assert_eq!(state.handle_window_event(event), None);
    }
    assert!(state.input().mouse_actions().is_empty());
    assert_eq!(state.input().cursor_pos(), None);
    assert_eq!(state.window_size(), PhysicalSize { width: 1280, height: 720 });
    assert_eq!(state.scale_factor(), double(1.5));
}

#[test]
fn losing_the_focus_empties_the_input_state() {
    let mut state = window();
    for code in [30, 31, 32] {
        state.handle_window_event(key_input(key(code, Some(code), ElementState::Pressed, false)));
    }
    state.handle_window_event(WindowEvent::MouseInput {
        device_id: MOUSE,
        state: ElementState::Pressed,
        button: MouseButton::Left,
    });
    state.handle_window_event(WindowEvent::ModifiersChanged(Modifiers { state: 4, pressed_mods: 1 }));
    state.handle_window_event(moved(4.0, 5.0));
    state.reset();
    for code in [30, 31, 32] {
        assert!(state.input().is_key_held_physical(&KeyCode(code)));
        assert!(state.input().is_key_held_logical(&NamedKey(code)));
    }

    let callback = state.handle_window_event(WindowEvent::Focused(false));

    assert_eq!(callback, Some(Callback::FocusChanged(false)));
    for code in [30, 31, 32] {
        assert!(!state.input().is_key_held_physical(&KeyCode(code)));
        assert!(!state.input().is_key_held_logical(&NamedKey(code)));
    }
    assert!(!state.input().is_button_held(MouseButton::Left));
    assert!(state.input().key_actions().is_empty());
    assert!(state.input().mouse_actions().is_empty());
    assert_eq!(state.input().modifiers(), Modifiers::default());
    assert_eq!(state.input().cursor_pos(), None);
    assert_eq!(state.input().cursor_pos_prev(), None);
    for code in [30, 31, 32] {
        assert!(!state
            .input()
            .was_key_operated_physical(&PhysicalKey::Code(KeyCode(code)), KeyActionState::Released));
    }
}

#[test]
fn gaining_the_focus_keeps_the_input_state() {
    let mut state = window();
    state.handle_window_event(key_input(key(30, None, ElementState::Pressed, false)));
    let callback = state.handle_window_event(WindowEvent::Focused(true));
    assert_eq!(callback, Some(Callback::FocusChanged(true)));
    assert!(state.input().is_key_held_physical(&KeyCode(30)));
    assert_eq!(state.input().key_actions().len(), 1);
}

#[test]
fn files_hover_drop_and_leave() {
    let mut state = window();
    let path = PathBuf::from("/tmp/picture.png");

    let callback = state.handle_window_event(WindowEvent::HoveredFile(path.clone()));
    assert_eq!(callback, Some(Callback::FileOver(Some(path.clone()), false)));
    assert_eq!(state.dropped_file(), None);

    let callback = state.handle_window_event(WindowEvent::DroppedFile(path.clone()));
    assert_eq!(callback, Some(Callback::FileOver(Some(path.clone()), true)));
    assert_eq!(state.dropped_file(), Some(&path));

    let callback = state.handle_window_event(WindowEvent::HoveredFileCancelled);
    assert_eq!(callback, Some(Callback::FileOver(None, false)));
    assert_eq!(state.dropped_file(), None);

    state.handle_window_event(WindowEvent::DroppedFile(path.clone()));
    assert_eq!(state.dropped_file(), Some(&path));
    state.reset();
    assert_eq!(state.dropped_file(), None);
}

#[test]
fn size_and_scale_are_kept_and_reported_together() {
    let mut state = window();
    let size = PhysicalSize { width: 800, height: 600 };
    let callback = state.handle_window_event(WindowEvent::Resized(size));
    assert_eq!(callback, Some(Callback::Resized(size, double(1.5))));
    assert_eq!(state.window_size(), size);
    assert_eq!(state.scale_factor(), double(1.5));

    let callback =
        state.handle_window_event(WindowEvent::ScaleFactorChanged { scale_factor: double(2.0) });
    assert_eq!(callback, Some(Callback::Resized(size, double(2.0))));
    assert_eq!(state.window_size(), size);
    assert_eq!(state.scale_factor(), double(2.0));

    state.reset();
    assert_eq!(state.window_size(), size);
    assert_eq!(state.scale_factor(), double(2.0));
    // The frame follows the size.
    assert_eq!(state.handle_window_event(moved(801.0, 10.0)), None);
    assert_eq!(state.handle_window_event(moved(800.0, 600.0)), Some(Callback::CursorMoved(at(800.0, 600.0))));
}

#[test]
fn keyboard_input_is_recorded_before_it_is_handed_on() {
    let mut state = window();
    let event = key(30, Some(5), ElementState::Pressed, false);
    let callback = state.handle_window_event(key_input(event.clone()));
    assert_eq!(callback, Some(Callback::KeyboardInput(event)));
    assert!(state.input().is_key_held_physical(&KeyCode(30)));
    assert!(state.input().is_key_held_logical(&NamedKey(5)));
    assert_eq!(state.input().key_actions().len(), 1);
    assert_eq!(state.input().key_actions()[0].state, KeyActionState::Pressed);
}

#[test]
fn text_and_scroll_pass_through() {
    let mut state = window();
    let commit = Ime::Commit("é".to_string());
    assert_eq!(
        state.handle_window_event(WindowEvent::Ime(commit.clone())),
        Some(Callback::TextInput(commit))
    );
    let preedit = Ime::Preedit("ab".to_string(), Some((0, 2)));
    assert_eq!(preedit.clone(), preedit);
    let delta = MouseScrollDelta::LineDelta(float(0.0), float(-1.0));
    assert_eq!(
        state.handle_window_event(WindowEvent::MouseWheel {
            device_id: MOUSE,
            delta,
            phase: TouchPhase::Moved
        }),
        Some(Callback::MouseScroll(delta))
    );
    assert!(state.input().key_actions().is_empty());
    assert!(state.input().mouse_actions().is_empty());
}

#[test]
fn a_cursor_move_in_the_frame_is_recorded() {
    let mut state = window();
    state.handle_window_event(WindowEvent::MouseInput {
        device_id: MOUSE,
        state: ElementState::Pressed,
        button: MouseButton::Left,
    });
    assert!(state.input().has_cursor_not_moved());
    let callback = state.handle_window_event(moved(100.0, 200.0));
    assert_eq!(callback, Some(Callback::CursorMoved(at(100.0, 200.0))));
    assert_eq!(state.input().cursor_pos(), Some(at(100.0, 200.0)));
    assert!(!state.input().has_cursor_not_moved());
}

#[test]
fn a_cursor_move_out_of_the_frame_is_rejected() {
    let mut state = window();
    state.handle_window_event(moved(100.0, 200.0));
    state.reset();
    assert_eq!(state.input().cursor_pos_prev(), Some(at(100.0, 200.0)));

    for (x, y) in [(-1.0, 5.0), (1281.0, 5.0), (5.0, -1.0), (5.0, 721.0), (f32::NAN, 5.0)] {
        let callback = state.handle_window_event(moved(x, y));
        assert_eq!(callback, None);
        assert_eq!(state.input().cursor_pos(), None);
        assert_eq!(state.input().cursor_pos_prev(), Some(at(100.0, 200.0)));
        assert_eq!(state.input().cursor_pos_rel(), None);
    }

    let callback = state.handle_window_event(moved(110.0, 190.0));
    assert_eq!(callback, Some(Callback::CursorMoved(at(110.0, 190.0))));
    assert_eq!(state.input().cursor_pos(), Some(at(110.0, 190.0)));
    assert_eq!(state.input().cursor_pos_rel(), Some((at(110.0, 190.0), at(100.0, 200.0))));
}

#[test]
fn a_rejected_move_does_not_end_a_click() {
    let mut state = window();
    state.handle_window_event(WindowEvent::MouseInput {
        device_id: MOUSE,
        state: ElementState::Pressed,
        button: MouseButton::Left,
    });
    state.handle_window_event(moved(-1.0, 5.0));
    // Both positions are absent, so the cursor counts as not moved.
    assert!(state.input().has_cursor_not_moved());
}

#[test]
fn mouse_input_is_recorded_and_handed_on() {
    let mut state = window();
    let callback = state.handle_window_event(WindowEvent::MouseInput {
        device_id: MOUSE,
        state: ElementState::Pressed,
        button: MouseButton::Middle,
    });
    assert_eq!(callback, Some(Callback::MouseInput(ElementState::Pressed, MouseButton::Middle)));
    assert!(state.input().is_button_held(MouseButton::Middle));
    assert_eq!(
        state.input().mouse_actions(),
        &[MouseAction { button: MouseButton::Middle, state: ElementState::Pressed }]
    );
}

#[test]
fn modifiers_are_overwritten_and_survive_a_reset() {
    let mut state = window();
    let first = Modifiers { state: 0b100, pressed_mods: 0b1 };
    let second = Modifiers { state: 0b100_000, pressed_mods: 0b100 };
    assert_eq!(state.handle_window_event(WindowEvent::ModifiersChanged(first)), None);
    assert_eq!(state.input().modifiers(), first);
    assert_eq!(state.handle_window_event(WindowEvent::ModifiersChanged(second)), None);
    assert_eq!(state.input().modifiers(), second);
    state.reset();
    assert_eq!(state.input().modifiers(), second);
}

#[test]
fn every_gesture_is_recorded_and_handed_on() {
    let mut state = window();
    let device_id = DeviceId(6);
    let events = vec![
        (
            WindowEvent::PinchGesture { device_id, delta: double(0.5), phase: TouchPhase::Started },
            Gesture::Pinch { device_id, delta: double(0.5), phase: TouchPhase::Started },
        ),
        (
            WindowEvent::PanGesture { device_id, delta: at(1.0, -1.0), phase: TouchPhase::Moved },
            Gesture::Pan { device_id, delta: at(1.0, -1.0), phase: TouchPhase::Moved },
        ),
        (WindowEvent::DoubleTapGesture { device_id }, Gesture::DoubleTap { device_id }),
        (
            WindowEvent::RotationGesture { device_id, delta: float(0.1), phase: TouchPhase::Ended },
            Gesture::Rotation { device_id, delta: float(0.1), phase: TouchPhase::Ended },
        ),
        (
            WindowEvent::TouchpadPressure { device_id, pressure: float(0.8), stage: 2 },
            Gesture::TouchpadPressure { device_id, pressure: float(0.8), stage: 2 },
        ),
    ];
    let mut expected = Vec::new();
    for (event, gesture) in events {
        assert_eq!(state.handle_window_event(event), Some(Callback::Gesture(gesture)));
        expected.push(gesture);
        assert_eq!(state.input().gestures(), expected.as_slice());
    }
}

#[test]
fn touch_and_axis_motion_are_recorded_and_handed_on() {
    let mut state = window();
    let touch = Touch {
        device_id: DeviceId(7),
        phase: TouchPhase::Moved,
        location: PhysicalPosition { x: double(10.0), y: double(20.0) },
        force: None,
        id: 3,
    };
    assert_eq!(state.handle_window_event(WindowEvent::Touch(touch)), Some(Callback::Touch(touch)));
    assert_eq!(state.input().touches(), &[touch]);

    let axis_motion = AxisMotion { device_id: DeviceId(8), axis: 2, value: double(0.75) };
    let callback = state.handle_window_event(WindowEvent::AxisMotion {
        device_id: DeviceId(8),
        axis: 2,
        value: double(0.75),
    });
    assert_eq!(callback, Some(Callback::AxisMotion(axis_motion)));
    assert_eq!(state.input().axis_motions(), &[axis_motion]);
    assert!(state.input().was_axis_moving(2, Some(DeviceId(8))));
}

#[test]
fn the_loop_exits_only_when_the_handler_says_so() {
    assert_eq!(LoopAction::after_close_request(true), LoopAction::Exit);
    assert_eq!(LoopAction::after_close_request(false), LoopAction::Continue);
    assert_eq!(LoopAction::after_update(true), LoopAction::Exit);
    assert_eq!(LoopAction::after_update(false), LoopAction::RequestRedraw);
}

#[test]
fn a_clone_of_the_window_state_holds_the_same() {
    let mut state = window();
    state.mark_resumed();
    state.handle_window_event(key_input(key(30, Some(5), ElementState::Pressed, false)));
    state.handle_window_event(WindowEvent::DroppedFile(PathBuf::from("/tmp/a.txt")));
    state.handle_window_event(WindowEvent::Resized(PhysicalSize { width: 300, height: 200 }));

    let mut copy = state.clone();
    assert_eq!(*copy.window_holder(), "the window");
    assert_eq!(copy.window_id(), WindowId(11));
    assert_eq!(copy.scale_factor(), double(1.5));
    assert_eq!(copy.window_size(), PhysicalSize { width: 300, height: 200 });
    assert_eq!(copy.dropped_file(), Some(&PathBuf::from("/tmp/a.txt")));
    assert_eq!(copy.input(), state.input());
    assert!(copy.input().is_key_held_physical(&KeyCode(30)));
    // The copy was resumed before, as the state was.
    assert!(!copy.mark_resumed());

    state.reset();
    assert_eq!(copy.dropped_file(), Some(&PathBuf::from("/tmp/a.txt")));
    assert_eq!(copy.input().key_actions().len(), 1);
}
