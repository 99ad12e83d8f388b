//! Core of a small 2D quad-rendering engine.
//!
//! The engine owns the per-frame synchronization protocol, the growable
//! vertex/index buffers for quad geometry, the texture/descriptor-set pool,
//! and the swapchain configuration.  Everything the engine decides is stated
//! and proved here; the unverified driver around it performs the GPU calls
//! and window I/O and feeds their outcomes back as plain values.

pub mod error;
pub mod event;
pub mod eventhandler;
pub mod geometry;
pub mod graphics;

pub use crate::graphics::HalState;

