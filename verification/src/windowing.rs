//! The event model, the input state and the lifecycle state machine.

pub mod action;
pub mod application;
pub mod event;
pub mod handler;
pub mod held_keys;
pub mod input;
pub mod keyboard;
pub mod window;

pub use action::{AxisMotion, Gesture, KeyAction, KeyActionState, MouseAction};
pub use application::{Application, Phase};
pub use handler::EventHandler;
pub use input::InputState;
pub use window::{Callback, LoopAction, WindowState};
