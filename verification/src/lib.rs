//! Host-side core of a GPU-driven gravitational-lensing viewer.
//!
//! The crate holds the parts of the host that carry state and rules: the orbit
//! camera, the build protocol for GPU programs, the byte layout of the uniform
//! blocks, the frame target, and the engine that ties them together. It talks
//! to no device and opens no window. A thin shell performs the device and
//! window calls and feeds their results back in as plain values.
//!
//! Quantities are fixed point throughout: angles in nanoradians, lengths in
//! metres, pointer and scroll offsets in whole device units.

pub mod camera;
pub mod controls;
pub mod engine;
pub mod fixed;
pub mod frame;
pub mod input;
pub mod program;
pub mod uniform;
