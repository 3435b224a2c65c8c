//! The records that the input state keeps of what happened in an iteration.

use crate::ieee::{Float32, Float64};
use crate::windowing::event::{
    AxisId, DeviceId, ElementState, MouseButton, PhysicalPosition, TouchPhase,
};
use crate::windowing::keyboard::{LogicalKey, PhysicalKey};
use vstd::prelude::*;

verus! {

/// The edge that a key action records: like [`ElementState`], with key
/// repeats told apart from the first press.
#[derive(Clone, Copy, Debug, PartialEq, Eq, Structural, Hash)]
pub enum KeyActionState {
    Pressed,
    Repeating,
    Released,
}

impl KeyActionState {
    /// The edge that a keyboard event records.
    pub open spec fn of_event(state: ElementState, repeat: bool) -> KeyActionState {
        match state {
            ElementState::Pressed => if repeat {
                KeyActionState::Repeating
            } else {
                KeyActionState::Pressed
            },
            ElementState::Released => KeyActionState::Released,
        }
    }

    /// The key's position after the edge: down after a press or a repeat.
    pub open spec fn element_state(self) -> ElementState {
        match self {
            KeyActionState::Pressed | KeyActionState::Repeating => ElementState::Pressed,
            KeyActionState::Released => ElementState::Released,
        }
    }
}

impl From<KeyActionState> for ElementState {
    fn from(state: KeyActionState) -> (r: ElementState) {
        match state {
            KeyActionState::Pressed | KeyActionState::Repeating => ElementState::Pressed,
            KeyActionState::Released => ElementState::Released,
        }
    }
}

impl vstd::std_specs::convert::FromSpecImpl<KeyActionState> for ElementState {
    open spec fn obeys_from_spec() -> bool {
        true
    }

    open spec fn from_spec(state: KeyActionState) -> ElementState {
        state.element_state()
    }
}

/// A key edge of the current iteration.
#[derive(Debug, PartialEq, Eq)]
pub struct KeyAction {
    pub physical_key: PhysicalKey,
    pub logical_key: LogicalKey,
    pub state: KeyActionState,
}

impl KeyAction {
    pub open spec fn matches_physical(&self, physical_key: PhysicalKey, state: KeyActionState) -> bool {
        self.physical_key == physical_key && self.state == state
    }

    pub open spec fn matches_logical(&self, logical_key: LogicalKey, state: KeyActionState) -> bool {
        self.logical_key.is_same(&logical_key) && self.state == state
    }

    pub fn is_physical(&self, physical_key: &PhysicalKey, state: KeyActionState) -> (r: bool)
        ensures
            r == self.matches_physical(*physical_key, state),
    {
        self.physical_key == *physical_key && self.state == state
    }

    pub fn is_logical(&self, logical_key: &LogicalKey, state: KeyActionState) -> (r: bool)
        ensures
            r == self.matches_logical(*logical_key, state),
    {
        self.logical_key == *logical_key && self.state == state
    }
}

impl Clone for KeyAction {
    fn clone(&self) -> (r: Self)
        ensures
            r == *self,
    {
        KeyAction {
            physical_key: self.physical_key,
            logical_key: self.logical_key.clone(),
            state: self.state,
        }
    }
}

/// A mouse button edge of the current iteration.
#[derive(Clone, Copy, Debug, PartialEq, Eq, Structural)]
pub struct MouseAction {
    pub button: MouseButton,
    pub state: ElementState,
}

/// An input signal of a touchpad or touch screen that is neither a key nor a
/// plain touch.
#[derive(Clone, Copy, Debug, PartialEq, Eq, Structural)]
#[allow(inconsistent_fields)]
pub enum Gesture {
    Pinch { device_id: DeviceId, delta: Float64, phase: TouchPhase },
    Pan { device_id: DeviceId, delta: PhysicalPosition<Float32>, phase: TouchPhase },
    DoubleTap { device_id: DeviceId },
    Rotation { device_id: DeviceId, delta: Float32, phase: TouchPhase },
    TouchpadPressure { device_id: DeviceId, pressure: Float32, stage: i64 },
}

impl Gesture {
    /// The device that a gesture came from.
    pub open spec fn source(self) -> DeviceId {
        match self {
            Gesture::Pinch { device_id, .. } => device_id,
            Gesture::Pan { device_id, .. } => device_id,
            Gesture::DoubleTap { device_id } => device_id,
            Gesture::Rotation { device_id, .. } => device_id,
            Gesture::TouchpadPressure { device_id, .. } => device_id,
        }
    }

    pub fn device_id(&self) -> (r: DeviceId)
        ensures
            r == self.source(),
    {
        match *self {
            Gesture::Pinch { device_id, .. } => device_id,
            Gesture::Pan { device_id, .. } => device_id,
            Gesture::DoubleTap { device_id } => device_id,
            Gesture::Rotation { device_id, .. } => device_id,
            Gesture::TouchpadPressure { device_id, .. } => device_id,
        }
    }
}

/// Motion on one axis of a device.
#[derive(Clone, Copy, Debug, PartialEq, Eq, Structural)]
pub struct AxisMotion {
    pub device_id: DeviceId,
    pub axis: AxisId,
    pub value: Float64,
}

impl AxisMotion {
    /// The motion is on `axis`, and on `device_id` where one is given.
    pub open spec fn concerns(self, axis: AxisId, device_id: Option<DeviceId>) -> bool {
        self.axis == axis && (device_id matches Some(id) ==> self.device_id == id)
    }

    pub fn is_on(&self, axis: AxisId, device_id: Option<DeviceId>) -> (r: bool)
        ensures
            r == self.concerns(axis, device_id),
    {
        let device_fits = match device_id {
            Some(id) => self.device_id == id,
            None => true,
        };
        device_fits && self.axis == axis
    }
}

} // verus!
