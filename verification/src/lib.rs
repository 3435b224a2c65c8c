//! Runtime core of an interactive application shell.
//!
//! The crate turns a host's stream of windowing and input events into a
//! frame-scoped input model and drives an [`windowing::EventHandler`] through
//! its lifecycle: initialise once, update, render, suspend and resume,
//! negotiate a close, exit.

pub mod engine;
pub mod ieee;
pub mod misc;
pub mod windowing;
