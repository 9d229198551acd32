//! Core of a minimal window manager for an X-style windowing protocol.
//!
//! The crate holds the manager's decision logic as a verified state machine:
//! the registry of managed windows, the frame creation/destruction lifecycle,
//! the drag/resize interaction controller, and the event dispatcher. Every
//! handler is a function from explicit manager state and a plain-value event
//! to the next state plus a list of outbound protocol commands; the process
//! that owns the server connection executes those commands and feeds the next
//! event back in.

pub mod geometry;
pub mod protocol;
pub mod registry;
pub mod manager;
pub mod dispatch;
