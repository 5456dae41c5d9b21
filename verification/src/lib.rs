//! Core logic of a small OpenGL window/event facade.
//!
//! The library models the backend-independent part of the window loop: how
//! native notifications (quit, expose, resize, pointer input) are classified,
//! how they change the window's state, and which actions the loop must take in
//! response. Coordinates and sizes are kept in hardware pixels here; the
//! backend around the library performs the native calls and the
//! floating-point unit conversion that the callback-facing surface offers.

pub mod events;
pub mod window;
