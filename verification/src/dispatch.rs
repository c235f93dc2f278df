//! Per-frame dispatch planning.
//!
//! The five kernel stages run strictly in order inside one compute pass,
//! each tiled over its target by fixed-size workgroups.  A frame is
//! all-or-nothing: if the targets are degenerate, a pipeline is not yet
//! compiled, or a GPU resource is missing, no stage is dispatched at all
//! and the frame is skipped.

use vstd::prelude::*;

use crate::readiness::{GpuResource, ResourceStatus};
use crate::targets::{ComputedTargetSizes, MAX_TARGET_DIM};
use crate::WORKGROUP_SIZE;

verus! {

/// The five kernel stages, in dispatch order.
#[derive(Clone, Copy, PartialEq, Eq, Structural, Debug)]
pub enum Stage {
    /// Rasterizes occluders into the distance field.
    SdfBuild,
    /// Ray-marches direct lighting into the probe buffer.
    ProbeSample,
    /// Propagates one indirect bounce.
    Bounce,
    /// Blends the frame into the temporal reservoir.
    Blend,
    /// Smooths the blended result into the irradiance texture.
    SpatialFilter,
}

/// A dispatch grid measured in workgroups.
#[derive(Clone, Copy, PartialEq, Eq, Structural, Debug)]
pub struct WorkgroupGrid {
    pub x: u32,
    pub y: u32,
}

/// One stage dispatch with its workgroup grid.
#[derive(Clone, Copy, PartialEq, Eq, Structural, Debug)]
pub struct DispatchOp {
    pub stage: Stage,
    pub grid: WorkgroupGrid,
}

/// Why a frame was skipped.
#[derive(Clone, Copy, PartialEq, Eq, Structural, Debug)]
pub enum SuspendReason {
    /// A target dimension is zero (window minimized or mid-resize).
    DegenerateTargetSize,
    /// A compute pipeline has not finished compiling.
    PipelinesNotCompiled,
    /// A buffer or texture is not yet resolved in GPU memory.
    ResourceMissing(GpuResource),
}

/// What the orchestrator does this frame: either nothing at all, or all
/// five stages in order.
#[derive(Clone, PartialEq, Eq, Debug)]
pub enum FramePlan {
    /// Skip the frame; no GPU work is issued.
    Suspended(SuspendReason),
    /// Dispatch exactly these operations, in order.
    Run(Vec<DispatchOp>),
}

/// Workgroups needed to cover `n` items: `n / d` rounded up.
pub open spec fn ceil_div_spec(n: u32, d: u32) -> int {
    (n + d - 1) / (d as int)
}

/// Computes the workgroup count covering a dimension.
pub fn ceil_div(n: u32, d: u32) -> (r: u32)
    requires
        1 <= d,
        n <= MAX_TARGET_DIM,
        d <= WORKGROUP_SIZE,
    ensures
        r == ceil_div_spec(n, d),
{
    (n + (d - 1)) / d
}

/// The five dispatches of a runnable frame: the distance field over its
/// own coarse grid, the probe, bounce and blend stages over the probe
/// grid, and the filter over the primary target.
pub open spec fn stage_dispatches(s: ComputedTargetSizes) -> Seq<DispatchOp> {
    seq![
        DispatchOp {
            stage: Stage::SdfBuild,
            grid: WorkgroupGrid {
                x: ceil_div_spec(s.sdf_w, WORKGROUP_SIZE) as u32,
                y: ceil_div_spec(s.sdf_h, WORKGROUP_SIZE) as u32,
            },
        },
        DispatchOp {
            stage: Stage::ProbeSample,
            grid: WorkgroupGrid {
                x: ceil_div_spec(s.probe_w, WORKGROUP_SIZE) as u32,
                y: ceil_div_spec(s.probe_h, WORKGROUP_SIZE) as u32,
            },
        },
        DispatchOp {
            stage: Stage::Bounce,
            grid: WorkgroupGrid {
                x: ceil_div_spec(s.probe_w, WORKGROUP_SIZE) as u32,
                y: ceil_div_spec(s.probe_h, WORKGROUP_SIZE) as u32,
            },
        },
        DispatchOp {
            stage: Stage::Blend,
            grid: WorkgroupGrid {
                x: ceil_div_spec(s.probe_w, WORKGROUP_SIZE) as u32,
                y: ceil_div_spec(s.probe_h, WORKGROUP_SIZE) as u32,
            },
        },
        DispatchOp {
            stage: Stage::SpatialFilter,
            grid: WorkgroupGrid {
                x: ceil_div_spec(s.primary_w, WORKGROUP_SIZE) as u32,
                y: ceil_div_spec(s.primary_h, WORKGROUP_SIZE) as u32,
            },
        },
    ]
}

/// Decides the whole frame.  Degenerate target sizes, uncompiled
/// pipelines, and missing resources each suspend the frame in that
/// order of precedence; otherwise the plan holds the five stage
/// dispatches in their fixed order with their exact grids.
pub fn plan_frame(sizes: &ComputedTargetSizes, pipelines_compiled: bool, status: &ResourceStatus)
    -> (p: FramePlan)
    requires
        sizes.wf(),
    ensures
        !sizes.valid() ==> p == FramePlan::Suspended(SuspendReason::DegenerateTargetSize),
        sizes.valid() && !pipelines_compiled ==> p == FramePlan::Suspended(
            SuspendReason::PipelinesNotCompiled,
        ),
        sizes.valid() && pipelines_compiled && !status.all_resolved() ==> p
            == FramePlan::Suspended(SuspendReason::ResourceMissing(status.first_missing())),
        sizes.valid() && pipelines_compiled && status.all_resolved() ==> (p matches
            FramePlan::Run(ops) && ops@ =~= stage_dispatches(*sizes)),
{
    if !sizes.is_valid() {
        return FramePlan::Suspended(SuspendReason::DegenerateTargetSize);
    }
    if !pipelines_compiled {
        return FramePlan::Suspended(SuspendReason::PipelinesNotCompiled);
    }
    match crate::readiness::check_resources_ready(status) {
        Err(missing) => FramePlan::Suspended(SuspendReason::ResourceMissing(missing)),
        Ok(()) => {
            let mut ops: Vec<DispatchOp> = Vec::new();
            ops.push(
                DispatchOp {
                    stage: Stage::SdfBuild,
                    grid: WorkgroupGrid {
                        x: ceil_div(sizes.sdf_w, WORKGROUP_SIZE),
                        y: ceil_div(sizes.sdf_h, WORKGROUP_SIZE),
                    },
                },
            );
            ops.push(
                DispatchOp {
                    stage: Stage::ProbeSample,
                    grid: WorkgroupGrid {
                        x: ceil_div(sizes.probe_w, WORKGROUP_SIZE),
                        y: ceil_div(sizes.probe_h, WORKGROUP_SIZE),
                    },
                },
            );
            ops.push(
                DispatchOp {
                    stage: Stage::Bounce,
                    grid: WorkgroupGrid {
                        x: ceil_div(sizes.probe_w, WORKGROUP_SIZE),
                        y: ceil_div(sizes.probe_h, WORKGROUP_SIZE),
                    },
                },
            );
            ops.push(
                DispatchOp {
                    stage: Stage::Blend,
                    grid: WorkgroupGrid {
                        x: ceil_div(sizes.probe_w, WORKGROUP_SIZE),
                        y: ceil_div(sizes.probe_h, WORKGROUP_SIZE),
                    },
                },
            );
            ops.push(
                DispatchOp {
                    stage: Stage::SpatialFilter,
                    grid: WorkgroupGrid {
                        x: ceil_div(sizes.primary_w, WORKGROUP_SIZE),
                        y: ceil_div(sizes.primary_h, WORKGROUP_SIZE),
                    },
                },
            );
            FramePlan::Run(ops)
        },
    }
}

} // verus!
