//! Decision engine of a desktop window shell.
//!
//! The shell hosts native windows and drives a retained-mode renderer. This
//! crate holds the part that decides: given an input event, a timer tick or
//! the results of user callbacks, it says whether the interface tree must be
//! rebuilt, restyled, hit-tested again or merely redrawn, and which platform
//! operations have to be carried out, in which order. Every operation on the
//! operating system, the graphics driver or the renderer is described as a
//! value and left to the caller to perform.

pub mod error;
pub mod text;
pub mod buffer;
pub mod cursor;
pub mod state;
pub mod geometry;
pub mod command;
pub mod message;
pub mod menu;
pub mod window;
pub mod timers;
pub mod decision;
pub mod handlers;
pub mod platform;
pub mod gl;
pub mod create;
pub mod app;
pub mod window_proc;
pub mod lifecycle;
