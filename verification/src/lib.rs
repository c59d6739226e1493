//! Verified core of a small window-drawing stack: an offscreen render
//! surface that the caller draws into, a CPU-side presentation buffer that
//! is handed to the platform compositor, and the resize/present protocol
//! that keeps the two in step.
//!
//! The platform pieces (the event loop, the window, the compositor
//! submission, and any GPU device or context) live outside this crate; the
//! library works on plain sizes and packed 32-bit pixels and states exactly
//! what each step of the protocol does to them.

pub mod cycle;
pub mod device;
pub mod geom;
pub mod grid;
pub mod presenter;
pub mod surface;
pub mod window;
