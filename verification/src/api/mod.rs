//! The application-level API.
//!
//! - [`event`] holds [`AppHandle`], the handle to the running app used to emit
//!   events, control the window, toggle devtools and so on, and [`UserEvent`],
//!   the messages through which all of that reaches the UI thread.
//! - [`builtins`] holds the IPC commands that applications get for free.

pub mod builtins;
pub mod event;

pub use event::{AppHandle, UserEvent, WindowOp};
