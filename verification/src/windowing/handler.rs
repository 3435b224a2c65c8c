//! The capability that an application implements to take part in the
//! lifecycle.

use crate::ieee::{Float32, Float64};
use crate::windowing::action::{AxisMotion, Gesture};
use crate::windowing::event::{
    DeviceEvent, DeviceId, ElementState, Ime, KeyEvent, MouseButton, MouseScrollDelta,
    PhysicalPosition, PhysicalSize, Touch, WindowEvent,
};
use crate::windowing::window::{Callback, LoopAction, WindowState};
use std::path::PathBuf;
use vstd::prelude::*;

verus! {

/// Handles the events of one window.
///
/// `update` and `render` are required. Every other method has a default that
/// does nothing, allows a close, or declines to exit.
#[allow(unused_variables)]
pub trait EventHandler<W, T = ()>: Sized {
    /// Called once, on the first resume.
    fn init(&mut self, window_state: &WindowState<W>) {
    }

    /// Called in the drive phase of every iteration, when the host has
    /// delivered the iteration's events.
    fn update(&mut self, window_state: &WindowState<W>);

    /// Called when the host asks for the window to be redrawn.
    fn render(&mut self, window_state: &WindowState<W>);

    /// Called with a payload that was injected into the event loop from
    /// outside.
    fn on_user_event(&mut self, window_state: &WindowState<W>, event: T) {
    }

    /// Called for every event of the window.
    ///
    /// The default decodes the event with
    /// [`WindowState::handle_window_event`] and passes the callback that it
    /// returns to [`EventHandler::dispatch`], together with the window state
    /// as the event has left it; the loop's next step is what `dispatch`
    /// returns. An event without a callback leaves the handler alone and
    /// lets the loop continue.
    ///
    /// An override has to decode the event in the same way, or the window
    /// state stops following the host: this is what the postcondition asks
    /// of every implementation.
    fn on_window_event(&mut self, window_state: &mut WindowState<W>, event: WindowEvent) -> (action:
        LoopAction)
        ensures
            final(window_state)@ == old(window_state)@.after_event(event),
        default_ensures
            match old(window_state)@.callback_for(event) {
                Some(callback) => exists|handler: &mut Self, seen: &WindowState<W>|
                    {
                        &&& *handler == *old(self)
                        &&& *final(handler) == *final(self)
                        &&& seen@ == final(window_state)@
                        &&& #[trigger] call_ensures(Self::dispatch, (handler, seen, callback), action)
                    },
                None => *final(self) == *old(self) && action == LoopAction::Continue,
            },
    {
        match window_state.handle_window_event(event) {
            Some(callback) => self.dispatch(window_state, callback),
            None => LoopAction::Continue,
        }
    }

    /// Calls the method that `callback` names, with its arguments, and
    /// returns what the event loop is to do next.
    ///
    /// By default the handler is left as one call of that method, on the
    /// window state and the callback's arguments, can leave it. Only a close
    /// request asks the loop to exit, and only if `on_close_requested`
    /// answered `true` in that call; every other callback lets the loop
    /// continue.
    fn dispatch(&mut self, window_state: &WindowState<W>, callback: Callback) -> (action: LoopAction)
        default_ensures
            !(callback is CloseRequested) ==> action == LoopAction::Continue,
            match callback {
                Callback::CloseRequested => exists|handler: &mut Self, allowed: bool|
                    {
                        &&& *handler == *old(self)
                        &&& *final(handler) == *final(self)
                        &&& #[trigger] call_ensures(
                            Self::on_close_requested,
                            (handler, window_state),
                            allowed,
                        )
                        &&& action == if allowed {
                            LoopAction::Exit
                        } else {
                            LoopAction::Continue
                        }
                    },
                Callback::Render => exists|handler: &mut Self|
                    {
                        &&& *handler == *old(self)
                        &&& *final(handler) == *final(self)
                        &&& #[trigger] call_ensures(Self::render, (handler, window_state), ())
                    },
                Callback::FocusChanged(state) => exists|handler: &mut Self|
                    {
                        &&& *handler == *old(self)
                        &&& *final(handler) == *final(self)
                        &&& #[trigger] call_ensures(
                            Self::on_focus_changed,
                            (handler, window_state, state),
                            (),
                        )
                    },
                Callback::OcclusionChanged(state) => exists|handler: &mut Self|
                    {
                        &&& *handler == *old(self)
                        &&& *final(handler) == *final(self)
                        &&& #[trigger] call_ensures(
                            Self::on_occlusion_changed,
                            (handler, window_state, state),
                            (),
                        )
                    },
                Callback::FileOver(path, dropped) => exists|handler: &mut Self|
                    {
                        &&& *handler == *old(self)
                        &&& *final(handler) == *final(self)
                        &&& #[trigger] call_ensures(
                            Self::on_file_over,
                            (handler, window_state, path, dropped),
                            (),
                        )
                    },
                Callback::Resized(window_size, scale_factor) => exists|handler: &mut Self|
                    {
                        &&& *handler == *old(self)
                        &&& *final(handler) == *final(self)
                        &&& #[trigger] call_ensures(
                            Self::on_resized,
                            (handler, window_state, window_size, scale_factor),
                            (),
                        )
                    },
                Callback::KeyboardInput(event) => exists|handler: &mut Self|
                    {
                        &&& *handler == *old(self)
                        &&& *final(handler) == *final(self)
                        &&& #[trigger] call_ensures(
                            Self::on_keyboard_input,
                            (handler, window_state, event),
                            (),
                        )
                    },
                Callback::TextInput(event) => exists|handler: &mut Self|
                    {
                        &&& *handler == *old(self)
                        &&& *final(handler) == *final(self)
                        &&& #[trigger] call_ensures(
                            Self::on_text_input,
                            (handler, window_state, event),
                            (),
                        )
                    },
                Callback::CursorMoved(pos) => exists|handler: &mut Self|
                    {
                        &&& *handler == *old(self)
                        &&& *final(handler) == *final(self)
                        &&& #[trigger] call_ensures(
                            Self::on_cursor_moved,
                            (handler, window_state, pos),
                            (),
                        )
                    },
                Callback::MouseInput(state, button) => exists|handler: &mut Self|
                    {
                        &&& *handler == *old(self)
                        &&& *final(handler) == *final(self)
                        &&& #[trigger] call_ensures(
                            Self::on_mouse_input,
                            (handler, window_state, state, button),
                            (),
                        )
                    },
                Callback::MouseScroll(delta) => exists|handler: &mut Self|
                    {
                        &&& *handler == *old(self)
                        &&& *final(handler) == *final(self)
                        &&& #[trigger] call_ensures(
                            Self::on_mouse_scroll,
                            (handler, window_state, delta),
                            (),
                        )
                    },
                Callback::Gesture(gesture) => exists|handler: &mut Self|
                    {
                        &&& *handler == *old(self)
                        &&& *final(handler) == *final(self)
                        &&& #[trigger] call_ensures(
                            Self::on_gesture,
                            (handler, window_state, gesture),
                            (),
                        )
                    },
                Callback::Touch(touch) => exists|handler: &mut Self|
                    {
                        &&& *handler == *old(self)
                        &&& *final(handler) == *final(self)
                        &&& #[trigger] call_ensures(Self::on_touch, (handler, window_state, touch), ())
                    },
                Callback::AxisMotion(axis_motion) => exists|handler: &mut Self|
                    {
                        &&& *handler == *old(self)
                        &&& *final(handler) == *final(self)
                        &&& #[trigger] call_ensures(
                            Self::on_axis_motion,
                            (handler, window_state, axis_motion),
                            (),
                        )
                    },
            },
    {
        match callback {
            Callback::CloseRequested => {
                let allowed = self.on_close_requested(window_state);
                LoopAction::after_close_request(allowed)
            },
            Callback::Render => {
                self.render(window_state);
                LoopAction::Continue
            },
            Callback::FocusChanged(state) => {
                self.on_focus_changed(window_state, state);
                LoopAction::Continue
            },
            Callback::OcclusionChanged(state) => {
                self.on_occlusion_changed(window_state, state);
                LoopAction::Continue
            },
            Callback::FileOver(path, dropped) => {
                self.on_file_over(window_state, path, dropped);
                LoopAction::Continue
            },
            Callback::Resized(window_size, scale_factor) => {
                self.on_resized(window_state, window_size, scale_factor);
                LoopAction::Continue
            },
            Callback::KeyboardInput(event) => {
                self.on_keyboard_input(window_state, event);
                LoopAction::Continue
            },
            Callback::TextInput(event) => {
                self.on_text_input(window_state, event);
                LoopAction::Continue
            },
            Callback::CursorMoved(pos) => {
                self.on_cursor_moved(window_state, pos);
                LoopAction::Continue
            },
            Callback::MouseInput(state, button) => {
                self.on_mouse_input(window_state, state, button);
                LoopAction::Continue
            },
            Callback::MouseScroll(delta) => {
                self.on_mouse_scroll(window_state, delta);
                LoopAction::Continue
            },
            Callback::Gesture(gesture) => {
                self.on_gesture(window_state, gesture);
                LoopAction::Continue
            },
            Callback::Touch(touch) => {
                self.on_touch(window_state, touch);
                LoopAction::Continue
            },
            Callback::AxisMotion(axis_motion) => {
                self.on_axis_motion(window_state, axis_motion);
                LoopAction::Continue
            },
        }
    }

    /// Called for every raw device event; such events belong to no window.
    fn on_device_event(&mut self, window_state: &WindowState<W>, id: DeviceId, event: DeviceEvent) {
    }

    /// Called when a key went down, repeats or came up.
    fn on_keyboard_input(&mut self, window_state: &WindowState<W>, event: KeyEvent) {
    }

    /// Called for the events of an input method editor.
    fn on_text_input(&mut self, window_state: &WindowState<W>, event: Ime) {
    }

    /// Called when the cursor moved to a position inside the window frame.
    fn on_cursor_moved(&mut self, window_state: &WindowState<W>, pos: PhysicalPosition<Float32>) {
    }

    /// Called when a mouse button went down or came up.
    fn on_mouse_input(
        &mut self,
        window_state: &WindowState<W>,
        state: ElementState,
        button: MouseButton,
    ) {
    }

    /// Called when a mouse wheel or a touchpad scrolled.
    fn on_mouse_scroll(&mut self, window_state: &WindowState<W>, delta: MouseScrollDelta) {
    }

    /// Called for a pinch, pan, double tap, rotation or touchpad pressure.
    fn on_gesture(&mut self, window_state: &WindowState<W>, gesture: Gesture) {
    }

    /// Called for every touch.
    fn on_touch(&mut self, window_state: &WindowState<W>, touch: Touch) {
    }

    /// Called for every motion on a device axis.
    fn on_axis_motion(&mut self, window_state: &WindowState<W>, axis_motion: AxisMotion) {
    }

    /// Called when the window gained or lost the focus.
    fn on_focus_changed(&mut self, window_state: &WindowState<W>, state: bool) {
    }

    /// Called when the window became entirely hidden, or visible again.
    fn on_occlusion_changed(&mut self, window_state: &WindowState<W>, state: bool) {
    }

    /// Called when a file hovers over the window, is dropped on it, or the
    /// hover is cancelled.
    fn on_file_over(&mut self, window_state: &WindowState<W>, path: Option<PathBuf>, dropped: bool) {
    }

    /// Called when the window was resized or its scale factor changed.
    fn on_resized(
        &mut self,
        window_state: &WindowState<W>,
        window_size: PhysicalSize<u32>,
        scale_factor: Float64,
    ) {
    }

    /// Called on every resume.
    fn on_resumed(&mut self, window_state: &WindowState<W>) {
    }

    /// Called on every suspend.
    fn on_suspended(&mut self, window_state: &WindowState<W>) {
    }

    /// Called when the user tries to close the window. `true` lets the
    /// application close, `false` keeps it open. The default allows it.
    fn on_close_requested(&mut self, window_state: &WindowState<W>) -> (allowed: bool)
        default_ensures
            allowed,
    {
        true
    }

    /// Tells, after each update, whether the handler wants the application
    /// to exit. The default never does.
    fn should_exit(&self, window_state: &WindowState<W>) -> (exit: bool)
        default_ensures
            !exit,
    {
        false
    }

    /// Called when the event loop has ended. The handler is given up here.
    fn on_exited(self) {
    }
}

} // verus!
