//! Frame lifecycle and surface management for a small real-time rendering
//! host.
//!
//! The library decides; the program around it performs. Every operation on
//! the graphics device is described by a value ([`renderer::FrameAction`])
//! that the caller carries out, and every result comes back as a value
//! ([`renderer::FrameEvent`]). Nothing here touches a window or a device.
//!
//! - [`surface`]: the swap chain's configuration, the deferred
//!   reconfiguration, and the kinds of acquisition failure;
//! - [`pipeline`] and [`mesh`]: what the pipeline and the buffers are
//!   built from;
//! - [`camera`]: the aspect ratio and the pending rewrite of the matrix;
//! - [`startup`]: the outcome of probing the device and the choice of the
//!   surface's format;
//! - [`renderer`]: the state of all of these and the per-frame protocol;
//! - [`host`]: the application's reactions to the window system;
//! - [`laws`]: what holds over whole sequences of resizes and events.

pub mod camera;
pub mod host;
pub mod laws;
pub mod mesh;
pub mod pipeline;
pub mod renderer;
pub mod startup;
pub mod surface;
