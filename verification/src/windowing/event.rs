//! The events that a host delivers, in the library's own vocabulary.
//!
//! A binding to a concrete windowing system converts each of its events into
//! one of these values before it hands the event to the library.

use crate::ieee::{Float32, Float64};
use crate::windowing::keyboard::{KeyLocation, LogicalKey, Modifiers, PhysicalKey};
use std::path::PathBuf;
use vstd::prelude::*;

verus! {

/// `std::path::PathBuf`, carried as an opaque value: the library passes the
/// paths of dropped files on and never looks inside them.
#[verifier::external_type_specification]
#[verifier::external_body]
pub struct ExPathBuf(PathBuf);

/// A position in physical pixels.
#[derive(Debug, PartialEq, Eq, Structural, Hash)]
pub struct PhysicalPosition<P> {
    pub x: P,
    pub y: P,
}

impl<P: Copy> Copy for PhysicalPosition<P> {

}

impl<P: Copy> Clone for PhysicalPosition<P> {
    fn clone(&self) -> (r: Self)
        ensures
            r == *self,
    {
        *self
    }
}

/// A size in physical pixels.
#[derive(Debug, PartialEq, Eq, Structural, Hash)]
pub struct PhysicalSize<P> {
    pub width: P,
    pub height: P,
}

impl<P: Copy> Copy for PhysicalSize<P> {

}

impl<P: Copy> Clone for PhysicalSize<P> {
    fn clone(&self) -> (r: Self)
        ensures
            r == *self,
    {
        *self
    }
}

/// Identifies a window of the host.
#[derive(Clone, Copy, Debug, PartialEq, Eq, Structural, Hash)]
pub struct WindowId(pub u64);

/// Identifies an input device of the host.
#[derive(Clone, Copy, Debug, PartialEq, Eq, Structural, Hash)]
pub struct DeviceId(pub u64);

/// Identifies an axis of a device.
pub type AxisId = u32;

/// Identifies a button of a device.
pub type ButtonId = u32;

/// Whether a key or button went down or came up.
#[derive(Clone, Copy, Debug, PartialEq, Eq, Structural, Hash)]
pub enum ElementState {
    Pressed,
    Released,
}

impl ElementState {
    pub fn is_pressed(self) -> (r: bool)
        ensures
            r == (self == ElementState::Pressed),
    {
        match self {
            ElementState::Pressed => true,
            ElementState::Released => false,
        }
    }
}

#[derive(Clone, Copy, Debug, PartialEq, Eq, Structural, Hash)]
pub enum MouseButton {
    Left,
    Right,
    Middle,
    Back,
    Forward,
    Other(u16),
}

#[derive(Clone, Copy, Debug, PartialEq, Eq, Structural, Hash)]
pub enum TouchPhase {
    Started,
    Moved,
    Ended,
    Cancelled,
}

/// The pressure of a touch.
#[derive(Clone, Copy, Debug, PartialEq, Eq, Structural)]
pub enum Force {
    Calibrated { force: Float64, max_possible_force: Float64, altitude_angle: Option<Float64> },
    Normalized(Float64),
}

/// One finger on a touch screen.
#[derive(Clone, Copy, Debug, PartialEq, Eq, Structural)]
pub struct Touch {
    pub device_id: DeviceId,
    pub phase: TouchPhase,
    pub location: PhysicalPosition<Float64>,
    pub force: Option<Force>,
    pub id: u64,
}

/// How far a wheel or a touchpad scrolled.
#[derive(Clone, Copy, Debug, PartialEq, Eq, Structural)]
pub enum MouseScrollDelta {
    LineDelta(Float32, Float32),
    PixelDelta(PhysicalPosition<Float64>),
}

/// An event of an input method editor.
#[derive(Debug, PartialEq, Eq)]
pub enum Ime {
    Enabled,
    Preedit(String, Option<(usize, usize)>),
    Commit(String),
    Disabled,
}

impl Clone for Ime {
    fn clone(&self) -> (r: Self)
        ensures
            r == *self,
    {
        match self {
            Ime::Enabled => Ime::Enabled,
            Ime::Preedit(text, cursor) => Ime::Preedit(text.clone(), *cursor),
            Ime::Commit(text) => Ime::Commit(text.clone()),
            Ime::Disabled => Ime::Disabled,
        }
    }
}

/// A keyboard event that is not tied to a window.
#[derive(Clone, Copy, Debug, PartialEq, Eq, Structural)]
pub struct RawKeyEvent {
    pub physical_key: PhysicalKey,
    pub state: ElementState,
}

/// A raw hardware event that is not tied to a window.
#[derive(Clone, Copy, Debug, PartialEq, Eq, Structural)]
pub enum DeviceEvent {
    Added,
    Removed,
    MouseMotion { delta_x: Float64, delta_y: Float64 },
    MouseWheel { delta: MouseScrollDelta },
    Motion { axis: AxisId, value: Float64 },
    Button { button: ButtonId, state: ElementState },
    Key(RawKeyEvent),
}

/// A key went down, repeats, or came up.
#[derive(Debug, PartialEq, Eq)]
pub struct KeyEvent {
    pub physical_key: PhysicalKey,
    pub logical_key: LogicalKey,
    pub text: Option<String>,
    pub location: KeyLocation,
    pub state: ElementState,
    pub repeat: bool,
}

impl Clone for KeyEvent {
    fn clone(&self) -> (r: Self)
        ensures
            r == *self,
    {
        KeyEvent {
            physical_key: self.physical_key,
            logical_key: self.logical_key.clone(),
            text: match &self.text {
                Some(text) => Some(text.clone()),
                None => None,
            },
            location: self.location,
            state: self.state,
            repeat: self.repeat,
        }
    }
}

#[derive(Clone, Copy, Debug, PartialEq, Eq, Structural, Hash)]
pub enum Theme {
    Light,
    Dark,
}

/// An event that the host addresses to one window.
#[derive(Debug, PartialEq, Eq)]
#[allow(inconsistent_fields)]
pub enum WindowEvent {
    ActivationTokenDone,
    Resized(PhysicalSize<u32>),
    Moved(PhysicalPosition<i32>),
    CloseRequested,
    Destroyed,
    DroppedFile(PathBuf),
    HoveredFile(PathBuf),
    HoveredFileCancelled,
    Focused(bool),
    KeyboardInput { device_id: DeviceId, event: KeyEvent, is_synthetic: bool },
    ModifiersChanged(Modifiers),
    Ime(Ime),
    CursorMoved { device_id: DeviceId, position: PhysicalPosition<Float32> },
    CursorEntered { device_id: DeviceId },
    CursorLeft { device_id: DeviceId },
    MouseWheel { device_id: DeviceId, delta: MouseScrollDelta, phase: TouchPhase },
    MouseInput { device_id: DeviceId, state: ElementState, button: MouseButton },
    PinchGesture { device_id: DeviceId, delta: Float64, phase: TouchPhase },
    PanGesture { device_id: DeviceId, delta: PhysicalPosition<Float32>, phase: TouchPhase },
    DoubleTapGesture { device_id: DeviceId },
    RotationGesture { device_id: DeviceId, delta: Float32, phase: TouchPhase },
    TouchpadPressure { device_id: DeviceId, pressure: Float32, stage: i64 },
    AxisMotion { device_id: DeviceId, axis: AxisId, value: Float64 },
    Touch(Touch),
    ScaleFactorChanged { scale_factor: Float64 },
    ThemeChanged(Theme),
    Occluded(bool),
    RedrawRequested,
}

/// Copies a path.
///
/// Calls `PathBuf::clone`; the copy is taken to equal the path that it was
/// made from.
#[verifier::external_body]
pub(crate) fn clone_path(path: &PathBuf) -> (copy: PathBuf)
    ensures
        copy == *path,
{
    path.clone()
}

} // verus!
