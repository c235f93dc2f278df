//! Scene state handed to the snapshot builder each frame.
//!
//! The host walks its entity store and hands the builder one flat record
//! per light, occluder, skylight mask and skylight emitter, already
//! converted to micro-unit fixed point.  Visibility is two flags per
//! entity: the hierarchy flag inherited from ancestors, and the per-view
//! flag; only entities with both set reach the GPU buffers.

use vstd::prelude::*;

use crate::scalar::{scalar_ok, Fx2, MICRO, SCALAR_LIMIT};

verus! {

/// Cap on the number of entities of each kind taken per frame; keeps
/// every buffer count and color sum comfortably inside its type.
pub const MAX_ENTITIES: usize = 0x10_0000;

/// A linear RGB color in micro-units.
#[derive(Clone, Copy, PartialEq, Eq, Structural, Debug)]
pub struct Rgb {
    pub r: i64,
    pub g: i64,
    pub b: i64,
}

impl Rgb {
    /// All channels bounded.
    pub open spec fn wf(self) -> bool {
        scalar_ok(self.r) && scalar_ok(self.g) && scalar_ok(self.b)
    }
}

/// Attenuation curve coefficients (constant, linear and quadratic-like
/// terms), in micro-units; all nonnegative.
#[derive(Clone, Copy, PartialEq, Eq, Structural, Debug)]
pub struct Falloff {
    pub constant: i64,
    pub linear: i64,
    pub quadratic: i64,
}

impl Falloff {
    /// Nonnegative bounded coefficients.
    pub open spec fn wf(self) -> bool {
        0 <= self.constant <= SCALAR_LIMIT && 0 <= self.linear <= SCALAR_LIMIT && 0
            <= self.quadratic <= SCALAR_LIMIT
    }
}

/// A rotation quaternion in micro-units.
#[derive(Clone, Copy, PartialEq, Eq, Structural, Debug)]
pub struct Quat4 {
    pub x: i64,
    pub y: i64,
    pub z: i64,
    pub w: i64,
}

impl Quat4 {
    /// All components bounded.
    pub open spec fn wf(self) -> bool {
        scalar_ok(self.x) && scalar_ok(self.y) && scalar_ok(self.z) && scalar_ok(self.w)
    }
}

/// An omnidirectional point light's own parameters.
#[derive(Clone, Copy, PartialEq, Eq, Structural, Debug)]
pub struct OmniLight {
    /// Emitted color.
    pub color: Rgb,
    /// Emission strength in micro-units.
    pub intensity: i64,
    /// Attenuation curve.
    pub falloff: Falloff,
    /// Amplitude of the per-frame random intensity jitter (nonnegative).
    pub jitter_intensity: i64,
    /// Amplitude of the per-frame random position jitter (nonnegative).
    pub jitter_translation: i64,
}

impl OmniLight {
    /// All parts bounded; jitter amplitudes nonnegative.
    pub open spec fn wf(self) -> bool {
        self.color.wf() && scalar_ok(self.intensity) && self.falloff.wf() && 0
            <= self.jitter_intensity <= SCALAR_LIMIT && 0 <= self.jitter_translation
            <= SCALAR_LIMIT
    }
}

/// One light as the host sees it: parameters, world position and the
/// two visibility flags.
#[derive(Clone, Copy, PartialEq, Eq, Structural, Debug)]
pub struct LightEntity {
    pub light: OmniLight,
    pub position: Fx2,
    pub hierarchy_visible: bool,
    pub view_visible: bool,
}

impl LightEntity {
    /// Light and position bounded.
    pub open spec fn wf(self) -> bool {
        self.light.wf() && self.position.wf()
    }

    /// Visible to the pipeline: both flags set.
    pub open spec fn visible(self) -> bool {
        self.hierarchy_visible && self.view_visible
    }
}

/// One axis-aligned (possibly rotated) occluder rectangle as the host
/// sees it.
#[derive(Clone, Copy, PartialEq, Eq, Structural, Debug)]
pub struct OccluderEntity {
    /// World-space center (global transform translation).
    pub center: Fx2,
    /// Local rotation; assumed unit length, so its inverse is its
    /// conjugate.
    pub rotation: Quat4,
    /// Rectangle half extents.
    pub half_extent: Fx2,
    pub hierarchy_visible: bool,
    pub view_visible: bool,
}

impl OccluderEntity {
    /// All parts bounded.
    pub open spec fn wf(self) -> bool {
        self.center.wf() && self.rotation.wf() && self.half_extent.wf()
    }

    /// Visible to the pipeline: both flags set.
    pub open spec fn visible(self) -> bool {
        self.hierarchy_visible && self.view_visible
    }
}

/// An area excluded from ambient skylight: center and half extents.
#[derive(Clone, Copy, PartialEq, Eq, Structural, Debug)]
pub struct MaskEntity {
    pub center: Fx2,
    pub half_extent: Fx2,
}

impl MaskEntity {
    /// All parts bounded.
    pub open spec fn wf(self) -> bool {
        self.center.wf() && self.half_extent.wf()
    }
}

/// One ambient skylight emitter: color channels in `[0, 1]` and a
/// nonnegative intensity.
#[derive(Clone, Copy, PartialEq, Eq, Structural, Debug)]
pub struct SkylightLight {
    pub color: Rgb,
    pub intensity: i64,
}

impl SkylightLight {
    /// Channels within one unit; intensity nonnegative and bounded.
    pub open spec fn wf(self) -> bool {
        0 <= self.color.r <= MICRO && 0 <= self.color.g <= MICRO && 0 <= self.color.b <= MICRO
            && 0 <= self.intensity <= SCALAR_LIMIT
    }
}

} // verus!
