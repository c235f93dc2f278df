//! Verified core of a real-time 2D global-illumination pipeline.
//!
//! The library models per-frame scene extraction, temporal-coherence
//! tracking, resource readiness gating and compute-dispatch planning over
//! fixed-point integer arithmetic.  A host renderer converts its floating
//! point scene state into micro-unit integers at the boundary and carries
//! the resulting buffers to the GPU.

pub mod bindings;
pub mod context;
pub mod dispatch;
pub mod falloff;
pub mod frame;
pub mod matrix;
pub mod random;
pub mod readiness;
pub mod scalar;
pub mod scene;
pub mod snapshot;
pub mod targets;
pub mod tracker;

use vstd::prelude::*;

verus! {

/// Fixed screen-space probe cell size in pixels: probes are laid out on a
/// grid of cells this wide and tall, and the temporal reservoir cycles
/// through `PROBE_SIZE * PROBE_SIZE` frame slots.
pub const PROBE_SIZE: u32 = 8;

/// Fixed edge length of one GPU workgroup; dispatch grids are measured in
/// workgroups of this size in each axis.
pub const WORKGROUP_SIZE: u32 = 8;

} // verus!
