//! A windowed rendering engine's control logic, stated and proved as a state
//! machine: which configuration the presentation surface holds, which events
//! lead to a frame, and which calls each frame is made of.

pub mod command;
pub mod config;
pub mod engine;
pub mod event;
pub mod laws;
pub mod render_state;
pub mod surface;
