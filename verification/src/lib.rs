//! A cross-platform window and input event dispatcher, verified.
//!
//! The crate models the core of an event loop: a canonical event algebra, a
//! per-window registry, a control-flow runner that drives one loop iteration
//! at a time, and the three platform adapters' translation logic. Native
//! handles, times and positions are carried as plain integers; the calls that
//! only the operating system can answer stay with the embedding program,
//! which hands the decoded values in and carries the decided actions out.

pub mod channel;
pub mod cocoa;
pub mod device;
pub mod dnd;
pub mod event;
pub mod registry;
pub mod runner;
pub mod win32;
pub mod x11;
