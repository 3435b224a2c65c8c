//! The state of one window, and how a window event changes it.

use crate::ieee::{Float32, Float64};
use crate::windowing::action::{AxisMotion, Gesture};
use crate::windowing::event::{
    clone_path, DeviceId, ElementState, Ime, KeyEvent, MouseButton, MouseScrollDelta, PhysicalPosition,
    PhysicalSize, Touch, WindowEvent, WindowId,
};
use crate::windowing::input::{is_event_of, InputState, InputStateView};
use crate::windowing::keyboard::{KeyCode, NamedKey};
use std::path::PathBuf;
use vstd::prelude::*;

verus! {

/// What the owning event loop is asked to do once a signal was handled.
#[derive(Clone, Copy, Debug, PartialEq, Eq, Structural, Hash)]
pub enum LoopAction {
    /// Nothing: go on with the next event.
    Continue,
    /// Ask the host to redraw the window.
    RequestRedraw,
    /// Leave the event loop.
    Exit,
}

impl LoopAction {
    /// The outcome of a close negotiation: the loop is told to exit if the
    /// handler allowed the close, and is told nothing if it did not.
    pub fn after_close_request(allowed: bool) -> (action: LoopAction)
        ensures
            allowed ==> action == LoopAction::Exit,
            !allowed ==> action == LoopAction::Continue,
    {
        if allowed {
            LoopAction::Exit
        } else {
            LoopAction::Continue
        }
    }

    /// The outcome of the drive phase: the loop is told to exit if the
    /// handler wants to, and the window is redrawn otherwise.
    pub fn after_update(should_exit: bool) -> (action: LoopAction)
        ensures
            should_exit ==> action == LoopAction::Exit,
            !should_exit ==> action == LoopAction::RequestRedraw,
    {
        if should_exit {
            LoopAction::Exit
        } else {
            LoopAction::RequestRedraw
        }
    }
}

/// The handler method that a window event leads to, with its arguments.
#[derive(Debug, PartialEq, Eq)]
pub enum Callback {
    /// `on_close_requested`
    CloseRequested,
    /// `render`
    Render,
    /// `on_focus_changed`
    FocusChanged(bool),
    /// `on_occlusion_changed`
    OcclusionChanged(bool),
    /// `on_file_over`: the path, and whether the file was dropped
    FileOver(Option<PathBuf>, bool),
    /// `on_resized`: the window size and the scale factor
    Resized(PhysicalSize<u32>, Float64),
    /// `on_keyboard_input`
    KeyboardInput(KeyEvent),
    /// `on_text_input`
    TextInput(Ime),
    /// `on_cursor_moved`
    CursorMoved(PhysicalPosition<Float32>),
    /// `on_mouse_input`
    MouseInput(ElementState, MouseButton),
    /// `on_mouse_scroll`
    MouseScroll(MouseScrollDelta),
    /// `on_gesture`
    Gesture(Gesture),
    /// `on_touch`
    Touch(Touch),
    /// `on_axis_motion`
    AxisMotion(AxisMotion),
}

/// What a [`WindowState`] holds, as mathematical values.
#[verifier::ext_equal]
pub struct WindowStateView<W> {
    pub initialized: bool,
    pub input: InputStateView,
    pub dropped_file: Option<PathBuf>,
    pub scale_factor: Float64,
    pub window_size: PhysicalSize<u32>,
    pub window_id: WindowId,
    pub window_holder: W,
}

/// The gesture that a window event reports, if it reports one.
pub open spec fn gesture_of(event: WindowEvent) -> Option<Gesture> {
    match event {
        WindowEvent::PinchGesture { device_id, delta, phase } => Some(
            Gesture::Pinch { device_id, delta, phase },
        ),
        WindowEvent::PanGesture { device_id, delta, phase } => Some(
            Gesture::Pan { device_id, delta, phase },
        ),
        WindowEvent::DoubleTapGesture { device_id } => Some(Gesture::DoubleTap { device_id }),
        WindowEvent::RotationGesture { device_id, delta, phase } => Some(
            Gesture::Rotation { device_id, delta, phase },
        ),
        WindowEvent::TouchpadPressure { device_id, pressure, stage } => Some(
            Gesture::TouchpadPressure { device_id, pressure, stage },
        ),
        _ => None,
    }
}

impl<W> WindowStateView<W> {
    /// The state of a window that was just handed to the library.
    pub open spec fn initial(
        window_holder: W,
        window_id: WindowId,
        scale_factor: Float64,
        window_size: PhysicalSize<u32>,
    ) -> WindowStateView<W> {
        WindowStateView {
            initialized: false,
            input: InputStateView::initial(),
            dropped_file: None,
            scale_factor,
            window_size,
            window_id,
            window_holder,
        }
    }

    /// The state at the start of the next iteration.
    pub open spec fn reset(self) -> WindowStateView<W> {
        WindowStateView { input: self.input.reset(), dropped_file: None, ..self }
    }

    /// The state after the window was resumed.
    pub open spec fn resumed(self) -> WindowStateView<W> {
        WindowStateView { initialized: true, ..self }
    }

    /// The position lies inside the window frame: each coordinate between
    /// zero and the window's extent, both included.
    pub open spec fn in_frame(self, position: PhysicalPosition<Float32>) -> bool {
        position.x.is_within(self.window_size.width as int) && position.y.is_within(
            self.window_size.height as int,
        )
    }

    /// The position where it lies inside the window frame.
    pub open spec fn clip_pos_in_frame(self, position: PhysicalPosition<Float32>) -> Option<
        PhysicalPosition<Float32>,
    > {
        if self.in_frame(position) {
            Some(position)
        } else {
            None
        }
    }

    /// The input state after a window event.
    pub open spec fn input_after(self, event: WindowEvent) -> InputStateView {
        match event {
            WindowEvent::Focused(focused) => if focused {
                self.input
            } else {
                InputStateView::initial()
            },
            WindowEvent::KeyboardInput { event, .. } => self.input.keyboard_input(event),
            WindowEvent::CursorMoved { position, .. } => self.input.cursor_moved(
                self.clip_pos_in_frame(position),
            ),
            WindowEvent::MouseInput { state, button, .. } => self.input.mouse_input(state, button),
            WindowEvent::ModifiersChanged(modifiers) => self.input.modifiers_changed(modifiers),
            WindowEvent::PinchGesture { .. }
            | WindowEvent::PanGesture { .. }
            | WindowEvent::DoubleTapGesture { .. }
            | WindowEvent::RotationGesture { .. }
            | WindowEvent::TouchpadPressure { .. } => self.input.gesture(gesture_of(event).unwrap()),
            WindowEvent::Touch(touch) => self.input.touch(touch),
            WindowEvent::AxisMotion { device_id, axis, value } => self.input.axis_motion(
                AxisMotion { device_id, axis, value },
            ),
            _ => self.input,
        }
    }

    /// The state after a window event.
    pub open spec fn after_event(self, event: WindowEvent) -> WindowStateView<W> {
        WindowStateView {
            input: self.input_after(event),
            dropped_file: match event {
                WindowEvent::DroppedFile(path) => Some(path),
                WindowEvent::HoveredFileCancelled => None,
                _ => self.dropped_file,
            },
            scale_factor: match event {
                WindowEvent::ScaleFactorChanged { scale_factor } => scale_factor,
                _ => self.scale_factor,
            },
            window_size: match event {
                WindowEvent::Resized(window_size) => window_size,
                _ => self.window_size,
            },
            ..self
        }
    }

    /// The state after a run of window events.
    pub open spec fn after_events(self, events: Seq<WindowEvent>) -> WindowStateView<W>
        decreases events.len(),
    {
        if events.len() == 0 {
            self
        } else {
            self.after_events(events.drop_last()).after_event(events.last())
        }
    }

    /// The handler method that a window event leads to, if it leads to one.
    pub open spec fn callback_for(self, event: WindowEvent) -> Option<Callback> {
        match event {
            WindowEvent::CloseRequested => Some(Callback::CloseRequested),
            WindowEvent::RedrawRequested => Some(Callback::Render),
            WindowEvent::Focused(focused) => Some(Callback::FocusChanged(focused)),
            WindowEvent::Occluded(occluded) => Some(Callback::OcclusionChanged(occluded)),
            WindowEvent::HoveredFileCancelled => Some(Callback::FileOver(None, false)),
            WindowEvent::HoveredFile(path) => Some(Callback::FileOver(Some(path), false)),
            WindowEvent::DroppedFile(path) => Some(Callback::FileOver(Some(path), true)),
            WindowEvent::Resized(window_size) => Some(
                Callback::Resized(window_size, self.scale_factor),
            ),
            WindowEvent::ScaleFactorChanged { scale_factor } => Some(
                Callback::Resized(self.window_size, scale_factor),
            ),
            WindowEvent::KeyboardInput { event, .. } => Some(Callback::KeyboardInput(event)),
            WindowEvent::Ime(event) => Some(Callback::TextInput(event)),
            WindowEvent::CursorMoved { position, .. } => if self.in_frame(position) {
                Some(Callback::CursorMoved(position))
            } else {
                None
            },
            WindowEvent::MouseInput { state, button, .. } => Some(
                Callback::MouseInput(state, button),
            ),
            WindowEvent::MouseWheel { delta, .. } => Some(Callback::MouseScroll(delta)),
            WindowEvent::PinchGesture { .. }
            | WindowEvent::PanGesture { .. }
            | WindowEvent::DoubleTapGesture { .. }
            | WindowEvent::RotationGesture { .. }
            | WindowEvent::TouchpadPressure { .. } => Some(
                Callback::Gesture(gesture_of(event).unwrap()),
            ),
            WindowEvent::Touch(touch) => Some(Callback::Touch(touch)),
            WindowEvent::AxisMotion { device_id, axis, value } => Some(
                Callback::AxisMotion(AxisMotion { device_id, axis, value }),
            ),
            WindowEvent::ModifiersChanged(_)
            | WindowEvent::CursorEntered { .. }
            | WindowEvent::CursorLeft { .. }
            | WindowEvent::Moved(_)
            | WindowEvent::ThemeChanged(_)
            | WindowEvent::ActivationTokenDone
            | WindowEvent::Destroyed => None,
        }
    }
}

/// Whether the key with the code `key_code` is down after a run of window
/// events: as its last key event left it, unless the focus was lost since,
/// which leaves every key up. Without either, the key is as it was (`held`).
pub open spec fn key_down_after(held: bool, events: Seq<WindowEvent>, key_code: KeyCode) -> bool
    decreases events.len(),
{
    if events.len() == 0 {
        held
    } else {
        match events.last() {
            WindowEvent::Focused(false) => false,
            WindowEvent::KeyboardInput { event, .. } => if is_event_of(event, key_code) {
                event.state == ElementState::Pressed
            } else {
                key_down_after(held, events.drop_last(), key_code)
            },
            _ => key_down_after(held, events.drop_last(), key_code),
        }
    }
}

/// Whether a mouse button is down after a run of window events, by the same
/// rule. A button that the library keeps no flag for is never down.
pub open spec fn button_down_after(held: bool, events: Seq<WindowEvent>, button: MouseButton) -> bool
    decreases events.len(),
{
    if button is Other {
        false
    } else if events.len() == 0 {
        held
    } else {
        match events.last() {
            WindowEvent::Focused(false) => false,
            WindowEvent::MouseInput { state, button: changed, .. } => if changed == button {
                state == ElementState::Pressed
            } else {
                button_down_after(held, events.drop_last(), button)
            },
            _ => button_down_after(held, events.drop_last(), button),
        }
    }
}

/// What is held follows the host: after any run of window events a key or
/// a mouse button is down exactly if the host last reported it down, and
/// the focus was not lost since. No other event, and no event of another
/// key or button, has a say in it.
pub proof fn lemma_held_state_follows_the_host<W>(
    window: WindowStateView<W>,
    events: Seq<WindowEvent>,
    key_code: KeyCode,
    button: MouseButton,
)
    ensures
        window.after_events(events).input.keys_held_physical.contains(key_code) == key_down_after(
            window.input.keys_held_physical.contains(key_code),
            events,
            key_code,
        ),
        window.after_events(events).input.is_button_held(button) == button_down_after(
            window.input.is_button_held(button),
            events,
            button,
        ),
    decreases events.len(),
{
    if events.len() > 0 {
        lemma_held_state_follows_the_host(window, events.drop_last(), key_code, button);
    }
}

/// The cursor positions that a window state records are numbers: a sample is
/// recorded only if it lies inside the frame, and what is no number lies
/// outside it. So a window state that holds numbers still does after any
/// event and after a reset.
pub proof fn lemma_recorded_positions_are_numbers<W>(window: WindowStateView<W>, event: WindowEvent)
    requires
        window.input.holds_numbers(),
    ensures
        window.after_event(event).input.holds_numbers(),
        window.reset().input.holds_numbers(),
        WindowStateView::initial(
            window.window_holder,
            window.window_id,
            window.scale_factor,
            window.window_size,
        ).input.holds_numbers(),
{
}

/// A cursor sample outside the window frame leads to no callback and leaves
/// no current position; it does not touch the previous position. The state
/// after the next sample inside the frame is what it would have been without
/// the rejected sample, so the cursor's relative movement is taken against
/// the last valid previous position.
pub proof fn lemma_rejected_sample_is_forgotten<W>(
    window: WindowStateView<W>,
    outside: PhysicalPosition<Float32>,
    inside: PhysicalPosition<Float32>,
    device_id: DeviceId,
)
    requires
        !window.in_frame(outside),
        window.in_frame(inside),
    ensures
        ({
            let rejected_sample = WindowEvent::CursorMoved { device_id, position: outside };
            let accepted_sample = WindowEvent::CursorMoved { device_id, position: inside };
            let rejected = window.after_event(rejected_sample);
            let accepted = rejected.after_event(accepted_sample);
            &&& window.callback_for(rejected_sample) is None
            &&& rejected.input.cursor_pos is None
            &&& rejected.input.cursor_pos_prev == window.input.cursor_pos_prev
            &&& rejected.callback_for(accepted_sample) == Some(Callback::CursorMoved(inside))
            &&& accepted.input.cursor_pos == Some(inside)
            &&& accepted.input.cursor_pos_prev == window.input.cursor_pos_prev
            &&& accepted.input.cursor_pos_rel() == match window.input.cursor_pos_prev {
                Some(previous) => Some((inside, previous)),
                None => None,
            }
            &&& accepted == window.after_event(accepted_sample)
        }),
{
}

/// The state that the library keeps of one window: its input state, the file
/// dropped in the current iteration, the last known scale factor and size,
/// and the holder of the window itself, which it never destroys.
#[derive(Debug)]
pub struct WindowState<W> {
    initialized: bool,
    input_state: InputState,
    dropped_file: Option<PathBuf>,
    scale_factor: Float64,
    window_size: PhysicalSize<u32>,
    window_id: WindowId,
    window_holder: W,
}

impl<W> View for WindowState<W> {
    type V = WindowStateView<W>;

    closed spec fn view(&self) -> WindowStateView<W> {
        WindowStateView {
            initialized: self.initialized,
            input: self.input_state@,
            dropped_file: self.dropped_file,
            scale_factor: self.scale_factor,
            window_size: self.window_size,
            window_id: self.window_id,
            window_holder: self.window_holder,
        }
    }
}

impl<W: Clone> Clone for WindowState<W> {
    /// The copy holds a clone of the window holder and, of everything else,
    /// what `self` holds.
    fn clone(&self) -> (r: Self)
        ensures
            r@ == (WindowStateView { window_holder: r@.window_holder, ..self@ }),
            cloned(self@.window_holder, r@.window_holder),
    {
        WindowState {
            initialized: self.initialized,
            input_state: self.input_state.clone(),
            dropped_file: match &self.dropped_file {
                Some(path) => Some(clone_path(path)),
                None => None,
            },
            scale_factor: self.scale_factor,
            window_size: self.window_size,
            window_id: self.window_id,
            window_holder: self.window_holder.clone(),
        }
    }
}

impl<W> WindowState<W> {
    /// Takes a window into the library's care. `window_id`, `scale_factor`
    /// and `window_size` are what the window reports at this moment.
    pub fn new(
        window_holder: W,
        window_id: WindowId,
        scale_factor: Float64,
        window_size: PhysicalSize<u32>,
    ) -> (r: Self)
        ensures
            r@ == WindowStateView::initial(window_holder, window_id, scale_factor, window_size),
    {
        WindowState {
            initialized: false,
            input_state: InputState::default(),
            dropped_file: None,
            scale_factor,
            window_size,
            window_id,
            window_holder,
        }
    }

    /// Starts a new iteration: resets the input state and forgets the
    /// dropped file.
    pub fn reset(&mut self)
        ensures
            final(self)@ == old(self)@.reset(),
    {
        self.input_state.reset();
        self.dropped_file = None;
    }

    /// Notes that the window was resumed, and tells whether this was the
    /// first time.
    pub fn mark_resumed(&mut self) -> (first: bool)
        ensures
            first == !old(self)@.initialized,
            final(self)@ == old(self)@.resumed(),
    {
        let first = !self.initialized;
        self.initialized = true;
        first
    }

    pub fn input(&self) -> (r: &InputState)
        ensures
            r@ == self@.input,
    {
        &self.input_state
    }

    /// The file that was dropped on the window in the current iteration.
    pub fn dropped_file(&self) -> (r: Option<&PathBuf>)
        ensures
            r matches Some(path) ==> self@.dropped_file == Some(*path),
            r is None ==> self@.dropped_file is None,
    {
        self.dropped_file.as_ref()
    }

    pub fn scale_factor(&self) -> (r: Float64)
        ensures
            r == self@.scale_factor,
    {
        self.scale_factor
    }

    pub fn window_size(&self) -> (r: PhysicalSize<u32>)
        ensures
            r == self@.window_size,
    {
        self.window_size
    }

    pub fn window_id(&self) -> (r: WindowId)
        ensures
            r == self@.window_id,
    {
        self.window_id
    }

    pub fn window_holder(&self) -> (r: &W)
        ensures
            *r == self@.window_holder,
    {
        &self.window_holder
    }

    /// Returns the position where it lies inside the window frame, and
    /// `None` where it does not.
    pub fn clip_pos_in_frame(&self, position: PhysicalPosition<Float32>) -> (r: Option<
        PhysicalPosition<Float32>,
    >)
        ensures
            r == self@.clip_pos_in_frame(position),
    {
        if position.x.within(self.window_size.width) && position.y.within(self.window_size.height) {
            Some(position)
        } else {
            None
        }
    }

    /// Decodes one window event: applies its effect to the state and returns
    /// the handler method that is to be called for it, if any.
    ///
    /// The effect is complete when the function returns, so the handler sees
    /// the state after the event.
    pub fn handle_window_event(&mut self, event: WindowEvent) -> (callback: Option<Callback>)
        ensures
            final(self)@ == old(self)@.after_event(event),
            callback == old(self)@.callback_for(event),
            event == WindowEvent::Focused(false) ==> {
                &&& final(self)@.input == InputStateView::initial()
                &&& final(self)@.input.keys_held_physical == Set::<KeyCode>::empty()
                &&& final(self)@.input.keys_held_logical == Set::<NamedKey>::empty()
                &&& forall|button: MouseButton| !final(self)@.input.is_button_held(button)
                &&& final(self)@.input.key_actions.len() == 0
                &&& final(self)@.input.mouse_actions.len() == 0
                &&& final(self)@.input.gestures.len() == 0
                &&& final(self)@.input.touches.len() == 0
                &&& final(self)@.input.axis_motions.len() == 0
            },
            event matches WindowEvent::CursorMoved { position, .. } && !old(self)@.in_frame(position)
                ==> callback is None && final(self)@.input.cursor_pos is None
                && final(self)@.input.cursor_pos_prev == old(self)@.input.cursor_pos_prev,
    {
        match event {
            WindowEvent::CloseRequested => Some(Callback::CloseRequested),
            WindowEvent::Destroyed => None,
            WindowEvent::RedrawRequested => Some(Callback::Render),
            WindowEvent::ActivationTokenDone => None,
            WindowEvent::Focused(focused_state) => {
                if !focused_state {
                    self.input_state = InputState::default();
                }
                Some(Callback::FocusChanged(focused_state))
            },
            WindowEvent::Occluded(occluded_state) => Some(Callback::OcclusionChanged(occluded_state)),
            WindowEvent::HoveredFileCancelled => {
                self.dropped_file = None;
                Some(Callback::FileOver(None, false))
            },
            WindowEvent::HoveredFile(path) => Some(Callback::FileOver(Some(path), false)),
            WindowEvent::DroppedFile(path) => {
                self.dropped_file = Some(clone_path(&path));
                Some(Callback::FileOver(Some(path), true))
            },
            WindowEvent::Moved(_) => None,
            WindowEvent::Resized(window_physical_inner_size) => {
                self.window_size = window_physical_inner_size;
                Some(Callback::Resized(self.window_size, self.scale_factor))
            },
            WindowEvent::ScaleFactorChanged { scale_factor } => {
                self.scale_factor = scale_factor;
                Some(Callback::Resized(self.window_size, self.scale_factor))
            },
            WindowEvent::KeyboardInput { event, .. } => {
                self.input_state.handle_keyboard_input(&event);
                Some(Callback::KeyboardInput(event))
            },
            WindowEvent::Ime(event) => Some(Callback::TextInput(event)),
            WindowEvent::CursorEntered { .. } | WindowEvent::CursorLeft { .. } => None,
            WindowEvent::CursorMoved { position, .. } => {
                let clipped = self.clip_pos_in_frame(position);
                self.input_state.handle_cursor_moved(clipped);
                match clipped {
                    Some(position) => Some(Callback::CursorMoved(position)),
                    None => None,
                }
            },
            WindowEvent::MouseInput { state, button, .. } => {
                self.input_state.handle_mouse_input(state, button);
                Some(Callback::MouseInput(state, button))
            },
            WindowEvent::MouseWheel { delta, .. } => Some(Callback::MouseScroll(delta)),
            WindowEvent::ModifiersChanged(modifiers) => {
                self.input_state.handle_modifiers_changed(modifiers);
                None
            },
            WindowEvent::PinchGesture { device_id, delta, phase } => {
                let gesture = Gesture::Pinch { device_id, delta, phase };
                self.input_state.handle_gesture(gesture);
                Some(Callback::Gesture(gesture))
            },
            WindowEvent::PanGesture { device_id, delta, phase } => {
                let gesture = Gesture::Pan { device_id, delta, phase };
                self.input_state.handle_gesture(gesture);
                Some(Callback::Gesture(gesture))
            },
            WindowEvent::DoubleTapGesture { device_id } => {
                let gesture = Gesture::DoubleTap { device_id };
                self.input_state.handle_gesture(gesture);
                Some(Callback::Gesture(gesture))
            },
            WindowEvent::RotationGesture { device_id, delta, phase } => {
                let gesture = Gesture::Rotation { device_id, delta, phase };
                self.input_state.handle_gesture(gesture);
                Some(Callback::Gesture(gesture))
            },
            WindowEvent::TouchpadPressure { device_id, pressure, stage } => {
                let gesture = Gesture::TouchpadPressure { device_id, pressure, stage };
                self.input_state.handle_gesture(gesture);
                Some(Callback::Gesture(gesture))
            },
            WindowEvent::Touch(touch) => {
                self.input_state.handle_touch(touch);
                Some(Callback::Touch(touch))
            },
            WindowEvent::AxisMotion { device_id, axis, value } => {
                let axis_motion = AxisMotion { device_id, axis, value };
                self.input_state.handle_axis_motion(axis_motion);
                Some(Callback::AxisMotion(axis_motion))
            },
            WindowEvent::ThemeChanged(_) => None,
        }
    }
}

} // verus!
