//! The render state of a window that is cleared to a flat colour, and the
//! decisions its event loop takes.
//!
//! Everything here works on plain values. The host program owns the window
//! and the GPU handles, performs what the library tells it to, and reports
//! back what happened.

pub mod colour;
pub mod event;
pub mod event_loop;
pub mod random;
pub mod state;
pub mod surface;
