//! Coordination core of a desktop timer shell: the timer session, the window
//! registry, the tray menu and the command bridge that ties them together.
//!
//! Nothing in this crate touches the operating system. Every operation takes
//! the current state and an event, moves the state, and returns the effects
//! that the host has to carry out.

pub mod bridge;
pub mod command;
pub mod coordinator;
pub mod effect;
pub mod error;
pub mod laws;
pub mod notify;
pub mod session;
pub mod tray;
pub mod window;
