//! Native shell logic for the Passage desktop application.
//!
//! The application shows a small fixed set of windows (onboarding, main app,
//! settings). This crate holds the part of the shell that can be stated and
//! proved: the identity of each window, the label, title and minimum size it
//! is given, the configuration a new window is built with, and the replies
//! the shell sends back to the front end. The host GUI runtime that actually
//! creates and focuses windows sits outside this crate and consumes these
//! values.

pub mod commands;
pub mod window;

pub use commands::{greet, open_app_window_reply};
pub use window::{ShowWindow, WindowConfig, WindowId};
