//! Coordinator for a desktop utility's windows: a primary window that can be
//! shown, hidden, toggled and resized, and at most one auxiliary window that
//! displays the result of a plugin invocation.
//!
//! The window-manipulation primitives themselves (create, show, hide, close,
//! focus, resize, emit an event) belong to a GUI toolkit and run outside this
//! library. Here they are given exact semantics over a mathematical view of
//! the window system, and every decision the coordinator makes — reuse or
//! create the auxiliary window, which way to toggle, how to retry a payload
//! delivery whose receiver may not be ready yet — is a verified function.

pub mod coordinator;
pub mod laws;
pub mod model;
pub mod payload;
