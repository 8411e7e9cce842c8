//! Device/swapchain lifecycle and frame-presentation logic for a
//! single-triangle renderer.
//!
//! The library holds the decisions of the renderer as verified functions on
//! plain values: physical-device suitability, queue-family resolution,
//! swapchain configuration (format, present mode, extent, image count,
//! sharing), and the per-frame acquire/submit/present state machine.
//! The platform calls themselves (instance and device creation, window
//! events, GPU submission) are made by the surrounding application, which
//! feeds their outcomes back into these functions.

pub mod device;
pub mod errors;
pub mod frame;
pub mod probe;
pub mod setup;
pub mod surface;
pub mod swapchain;
