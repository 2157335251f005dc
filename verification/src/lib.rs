//! A small application framework for a real-time rendering sandbox: a registry
//! of modules (window, renderer), keyboard input tracking, the bookkeeping of a
//! swap chain, and the decisions of the window event loop.
//!
//! Everything here works on plain values. Opening windows, talking to the GPU
//! and floating-point camera maths are left to the program that uses the
//! library.
pub mod application;
pub mod application_event;
pub mod application_events;
pub mod camera;
pub mod event_system;
pub mod events;
pub mod input;
pub mod module;
pub mod renderer;
pub mod state_descriptor;
pub mod virtual_keycode;
pub mod window;
pub mod window_event;

