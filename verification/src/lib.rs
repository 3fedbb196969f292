//! A verified viewport transform model for a pan-and-zoom 2D viewer.
//!
//! The library holds the visible logical rectangle (center + size), the
//! drag state machine that turns pointer and wheel events into pan and zoom
//! operations, and the fixed 16-byte record uploaded to the GPU each frame.
//! Scalars are carried as IEEE-754 bit patterns; the arithmetic itself is
//! delegated to a software floating-point implementation behind trusted
//! wrappers.

pub mod arith;
pub mod codec;
pub mod controller;
pub mod viewport;
