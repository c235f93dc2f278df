//! The resource readiness gate.
//!
//! During startup and right after a resize, some GPU buffers and
//! texture targets are not allocated yet.  Before any kernel runs, the
//! gate checks every required resource; if one is missing it names the
//! first absent one, and the caller skips the frame without error.

use vstd::prelude::*;

verus! {

/// Every GPU resource the five kernel stages bind.
#[derive(Clone, Copy, PartialEq, Eq, Structural, Debug)]
pub enum GpuResource {
    /// Storage buffer of extracted light sources.
    LightSources,
    /// Storage buffer of extracted occluders.
    LightOccluders,
    /// Uniform buffer of camera parameters.
    CameraParams,
    /// Uniform buffer of light-pass parameters.
    LightPassParams,
    /// Storage buffer of the probe reservoir.
    Probes,
    /// Storage buffer of skylight masks.
    SkylightMasks,
    /// Distance-field texture target.
    SdfTarget,
    /// Probe radiance texture target.
    ProbeTarget,
    /// Indirect bounce texture target.
    BounceTarget,
    /// Temporal blend texture target.
    BlendTarget,
    /// Filtered irradiance texture target.
    FilterTarget,
    /// Camera pose metadata texture target.
    PoseTarget,
}

/// Which buffers are bound and which texture targets are resolved in GPU
/// memory this frame, as reported by the host's render backend.
#[derive(Clone, Copy, PartialEq, Eq, Structural, Debug)]
pub struct ResourceStatus {
    pub light_sources: bool,
    pub light_occluders: bool,
    pub camera_params: bool,
    pub light_pass_params: bool,
    pub probes: bool,
    pub skylight_masks: bool,
    pub sdf_target: bool,
    pub probe_target: bool,
    pub bounce_target: bool,
    pub blend_target: bool,
    pub filter_target: bool,
    pub pose_target: bool,
}

impl ResourceStatus {
    /// Whether the given resource is resolved.
    pub open spec fn resolved(self, r: GpuResource) -> bool {
        match r {
            GpuResource::LightSources => self.light_sources,
            GpuResource::LightOccluders => self.light_occluders,
            GpuResource::CameraParams => self.camera_params,
            GpuResource::LightPassParams => self.light_pass_params,
            GpuResource::Probes => self.probes,
            GpuResource::SkylightMasks => self.skylight_masks,
            GpuResource::SdfTarget => self.sdf_target,
            GpuResource::ProbeTarget => self.probe_target,
            GpuResource::BounceTarget => self.bounce_target,
            GpuResource::BlendTarget => self.blend_target,
            GpuResource::FilterTarget => self.filter_target,
            GpuResource::PoseTarget => self.pose_target,
        }
    }

    /// Whether every required resource is resolved.
    pub open spec fn all_resolved(self) -> bool {
        self.light_sources && self.light_occluders && self.camera_params && self.light_pass_params
            && self.probes && self.skylight_masks && self.sdf_target && self.probe_target
            && self.bounce_target && self.blend_target && self.filter_target && self.pose_target
    }

    /// The first missing resource in the fixed check order: the six
    /// buffers, then the six texture targets.
    pub open spec fn first_missing(self) -> GpuResource {
        if !self.light_sources {
            GpuResource::LightSources
        } else if !self.light_occluders {
            GpuResource::LightOccluders
        } else if !self.camera_params {
            GpuResource::CameraParams
        } else if !self.light_pass_params {
            GpuResource::LightPassParams
        } else if !self.probes {
            GpuResource::Probes
        } else if !self.skylight_masks {
            GpuResource::SkylightMasks
        } else if !self.sdf_target {
            GpuResource::SdfTarget
        } else if !self.probe_target {
            GpuResource::ProbeTarget
        } else if !self.bounce_target {
            GpuResource::BounceTarget
        } else if !self.blend_target {
            GpuResource::BlendTarget
        } else if !self.filter_target {
            GpuResource::FilterTarget
        } else {
            GpuResource::PoseTarget
        }
    }
}

/// Checks that every buffer binding and texture target the pipeline
/// needs is resolved.  Succeeds exactly when all are; otherwise reports
/// the first missing resource in the fixed check order, and the frame is
/// to be skipped without error.
pub fn check_resources_ready(status: &ResourceStatus) -> (r: Result<(), GpuResource>)
    ensures
        r is Ok <==> status.all_resolved(),
        r is Err ==> r->Err_0 == status.first_missing() && !status.resolved(r->Err_0),
{
    if !status.light_sources {
        Err(GpuResource::LightSources)
    } else if !status.light_occluders {
        Err(GpuResource::LightOccluders)
    } else if !status.camera_params {
        Err(GpuResource::CameraParams)
    } else if !status.light_pass_params {
        Err(GpuResource::LightPassParams)
    } else if !status.probes {
        Err(GpuResource::Probes)
    } else if !status.skylight_masks {
        Err(GpuResource::SkylightMasks)
    } else if !status.sdf_target {
        Err(GpuResource::SdfTarget)
    } else if !status.probe_target {
        Err(GpuResource::ProbeTarget)
    } else if !status.bounce_target {
        Err(GpuResource::BounceTarget)
    } else if !status.blend_target {
        Err(GpuResource::BlendTarget)
    } else if !status.filter_target {
        Err(GpuResource::FilterTarget)
    } else if !status.pose_target {
        Err(GpuResource::PoseTarget)
    } else {
        Ok(())
    }
}

} // verus!
