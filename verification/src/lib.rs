//! A verified model of a fixed two-pass render pipeline: a state-update
//! (compute) pass feeding a presentation (draw) pass over a full-screen
//! quad, with double-buffered state textures and per-frame uniform wiring.
//!
//! The library holds the pipeline's logic — frame counting, buffer
//! transfer semantics, quad geometry, elapsed-time and time-of-day
//! arithmetic, and shader build outcomes — as plain data with contracts.
//! The surrounding host (drawing surface, GPU device, frame scheduler)
//! consumes the per-frame plans this model produces.

pub mod geometry;
pub mod pipeline;
pub mod shader;
pub mod stages;
pub mod timing;
