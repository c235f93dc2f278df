//! Render-target sizing.
//!
//! The pipeline draws into six textures whose sizes derive from the
//! primary window size: the distance field lives on a coarser grid, and
//! the probe atlas on a coarser grid still.  On a resize all sizes are
//! recomputed; while any dimension is zero (a minimized window) the
//! whole pipeline is suspended.

use vstd::prelude::*;

use crate::WORKGROUP_SIZE;

verus! {

/// Largest supported target dimension in pixels; keeps every derived
/// size computation inside `u32`.
pub const MAX_TARGET_DIM: u32 = 0x10_0000;

/// How the three target families scale down from the window size.  Each
/// divisor must be at least one; the defaults keep the primary target at
/// window resolution, the distance field at half, and the probe grid at
/// one cell per probe.
#[derive(Clone, Copy, PartialEq, Eq, Structural, Debug)]
pub struct TargetScaling {
    pub primary_divisor: u32,
    pub sdf_divisor: u32,
    pub probe_divisor: u32,
}

impl TargetScaling {
    /// All divisors positive.
    pub open spec fn wf(self) -> bool {
        self.primary_divisor >= 1 && self.sdf_divisor >= 1 && self.probe_divisor >= 1
    }

    /// The default scaling: primary at window resolution, distance field
    /// halved, probe grid divided by the probe cell size.
    pub fn defaults() -> (s: TargetScaling)
        ensures
            s.primary_divisor == 1,
            s.sdf_divisor == 2,
            s.probe_divisor == crate::PROBE_SIZE,
            s.wf(),
    {
        TargetScaling { primary_divisor: 1, sdf_divisor: 2, probe_divisor: crate::PROBE_SIZE }
    }
}

/// The pixel sizes of the three target families, recomputed on every
/// resize.
#[derive(Clone, Copy, PartialEq, Eq, Structural, Debug)]
pub struct ComputedTargetSizes {
    pub primary_w: u32,
    pub primary_h: u32,
    pub sdf_w: u32,
    pub sdf_h: u32,
    pub probe_w: u32,
    pub probe_h: u32,
}

impl ComputedTargetSizes {
    /// All dimensions inside the supported range.
    pub open spec fn wf(self) -> bool {
        self.primary_w <= MAX_TARGET_DIM && self.primary_h <= MAX_TARGET_DIM && self.sdf_w
            <= MAX_TARGET_DIM && self.sdf_h <= MAX_TARGET_DIM && self.probe_w <= MAX_TARGET_DIM
            && self.probe_h <= MAX_TARGET_DIM
    }

    /// Dispatch may only proceed while every dimension is positive; a
    /// minimized window yields zero dimensions and suspends the
    /// pipeline.
    pub open spec fn valid(self) -> bool {
        self.primary_w > 0 && self.primary_h > 0 && self.sdf_w > 0 && self.sdf_h > 0
            && self.probe_w > 0 && self.probe_h > 0
    }

    /// Runtime check for `valid`.
    pub fn is_valid(&self) -> (r: bool)
        ensures
            r == self.valid(),
    {
        self.primary_w > 0 && self.primary_h > 0 && self.sdf_w > 0 && self.sdf_h > 0
            && self.probe_w > 0 && self.probe_h > 0
    }
}

/// Derives all target sizes from the window size: the primary target is
/// the window scaled by the primary divisor, and the distance-field and
/// probe-grid targets divide the window further (rounding down).
pub fn compute_target_sizes(window_w: u32, window_h: u32, scaling: &TargetScaling) -> (s:
    ComputedTargetSizes)
    requires
        scaling.wf(),
        window_w <= MAX_TARGET_DIM,
        window_h <= MAX_TARGET_DIM,
    ensures
        s.primary_w == window_w as int / scaling.primary_divisor as int,
        s.primary_h == window_h as int / scaling.primary_divisor as int,
        s.sdf_w == window_w as int / scaling.sdf_divisor as int,
        s.sdf_h == window_h as int / scaling.sdf_divisor as int,
        s.probe_w == window_w as int / scaling.probe_divisor as int,
        s.probe_h == window_h as int / scaling.probe_divisor as int,
        s.wf(),
{
    ComputedTargetSizes {
        primary_w: window_w / scaling.primary_divisor,
        primary_h: window_h / scaling.primary_divisor,
        sdf_w: window_w / scaling.sdf_divisor,
        sdf_h: window_h / scaling.sdf_divisor,
        probe_w: window_w / scaling.probe_divisor,
        probe_h: window_h / scaling.probe_divisor,
    }
}

/// The smallest multiple of the workgroup size that is at least `n`.
pub open spec fn align_up_spec(n: u32) -> int {
    ((n + WORKGROUP_SIZE - 1) / (WORKGROUP_SIZE as int)) * (WORKGROUP_SIZE as int)
}

/// Rounds a dimension up to a whole number of workgroups.
pub fn align_to_workgroup_grid(n: u32) -> (r: u32)
    requires
        n <= MAX_TARGET_DIM,
    ensures
        r == align_up_spec(n),
        r % WORKGROUP_SIZE == 0,
        n <= r < n + WORKGROUP_SIZE,
{
    ((n + (WORKGROUP_SIZE - 1)) / WORKGROUP_SIZE) * WORKGROUP_SIZE
}

/// Pixel format of a render target.
#[derive(Clone, Copy, PartialEq, Eq, Structural, Debug)]
pub enum TextureFormat {
    /// Single-channel 16-bit float distance.
    R16Float,
    /// Four-channel 16-bit float radiance.
    Rgba16Float,
    /// Four-channel 32-bit float radiance.
    Rgba32Float,
    /// Two-channel 32-bit float pose.
    Rg32Float,
}

/// Sampling filter of a render target.
#[derive(Clone, Copy, PartialEq, Eq, Structural, Debug)]
pub enum FilterMode {
    Linear,
    Nearest,
}

/// The six pipeline-owned textures.
#[derive(Clone, Copy, PartialEq, Eq, Structural, Debug)]
pub enum TargetKind {
    Sdf,
    Probe,
    Bounce,
    Blend,
    Irradiance,
    Pose,
}

/// One texture to (re)create: which target, at what size, in which
/// format, with which sampling filter.
#[derive(Clone, Copy, PartialEq, Eq, Structural, Debug)]
pub struct TargetSpec {
    pub kind: TargetKind,
    pub width: u32,
    pub height: u32,
    pub format: TextureFormat,
    pub filter: FilterMode,
}

/// The fixed table of the six pipeline textures for the given sizes:
/// the distance field on its coarse grid with linear filtering, the
/// blend buffer on the probe grid, and the probe, bounce, irradiance and
/// pose buffers at primary resolution, all point-sampled.
pub open spec fn target_table(s: ComputedTargetSizes) -> Seq<TargetSpec> {
    seq![
        TargetSpec {
            kind: TargetKind::Sdf,
            width: s.sdf_w,
            height: s.sdf_h,
            format: TextureFormat::R16Float,
            filter: FilterMode::Linear,
        },
        TargetSpec {
            kind: TargetKind::Probe,
            width: s.primary_w,
            height: s.primary_h,
            format: TextureFormat::Rgba16Float,
            filter: FilterMode::Nearest,
        },
        TargetSpec {
            kind: TargetKind::Bounce,
            width: s.primary_w,
            height: s.primary_h,
            format: TextureFormat::Rgba32Float,
            filter: FilterMode::Nearest,
        },
        TargetSpec {
            kind: TargetKind::Blend,
            width: s.probe_w,
            height: s.probe_h,
            format: TextureFormat::Rgba32Float,
            filter: FilterMode::Nearest,
        },
        TargetSpec {
            kind: TargetKind::Irradiance,
            width: s.primary_w,
            height: s.primary_h,
            format: TextureFormat::Rgba32Float,
            filter: FilterMode::Nearest,
        },
        TargetSpec {
            kind: TargetKind::Pose,
            width: s.primary_w,
            height: s.primary_h,
            format: TextureFormat::Rg32Float,
            filter: FilterMode::Nearest,
        },
    ]
}

/// The three opaque scene layers the compositor reads beside the
/// irradiance texture.
#[derive(Clone, Copy, PartialEq, Eq, Structural, Debug)]
pub enum LayerKind {
    Floor,
    Walls,
    Objects,
}

/// One opaque layer texture to (re)create at the primary resolution.
#[derive(Clone, Copy, PartialEq, Eq, Structural, Debug)]
pub struct LayerSpec {
    pub kind: LayerKind,
    pub width: u32,
    pub height: u32,
}

/// The fixed table of the three opaque layer textures, all at primary
/// resolution.  On a resize these are recreated together with the six
/// pipeline textures before the next dispatch.
pub open spec fn layer_table(s: ComputedTargetSizes) -> Seq<LayerSpec> {
    seq![
        LayerSpec { kind: LayerKind::Floor, width: s.primary_w, height: s.primary_h },
        LayerSpec { kind: LayerKind::Walls, width: s.primary_w, height: s.primary_h },
        LayerSpec { kind: LayerKind::Objects, width: s.primary_w, height: s.primary_h },
    ]
}

/// Builds the opaque layer texture table for the given sizes.
pub fn layer_specs(s: &ComputedTargetSizes) -> (v: Vec<LayerSpec>)
    ensures
        v@ =~= layer_table(*s),
{
    let mut v: Vec<LayerSpec> = Vec::new();
    v.push(LayerSpec { kind: LayerKind::Floor, width: s.primary_w, height: s.primary_h });
    v.push(LayerSpec { kind: LayerKind::Walls, width: s.primary_w, height: s.primary_h });
    v.push(LayerSpec { kind: LayerKind::Objects, width: s.primary_w, height: s.primary_h });
    v
}

/// One texture the compositor samples: an opaque layer or a
/// pipeline-owned target.
#[derive(Clone, Copy, PartialEq, Eq, Structural, Debug)]
pub enum CompositorSource {
    Layer(LayerKind),
    Target(TargetKind),
}

/// The compositor's four inputs in binding order: the three opaque
/// layers, then the filtered irradiance texture.  It reads these and
/// nothing else; in particular it never writes a pipeline target.
pub open spec fn compositor_input_table() -> Seq<CompositorSource> {
    seq![
        CompositorSource::Layer(LayerKind::Floor),
        CompositorSource::Layer(LayerKind::Walls),
        CompositorSource::Layer(LayerKind::Objects),
        CompositorSource::Target(TargetKind::Irradiance),
    ]
}

/// Builds the compositor input list for the host's material setup.
pub fn compositor_inputs() -> (v: Vec<CompositorSource>)
    ensures
        v@ =~= compositor_input_table(),
{
    let mut v: Vec<CompositorSource> = Vec::new();
    v.push(CompositorSource::Layer(LayerKind::Floor));
    v.push(CompositorSource::Layer(LayerKind::Walls));
    v.push(CompositorSource::Layer(LayerKind::Objects));
    v.push(CompositorSource::Target(TargetKind::Irradiance));
    v
}

/// Builds the texture table the host must allocate for the given sizes.
pub fn target_specs(s: &ComputedTargetSizes) -> (v: Vec<TargetSpec>)
    ensures
        v@ =~= target_table(*s),
{
    let mut v: Vec<TargetSpec> = Vec::new();
    v.push(
        TargetSpec {
            kind: TargetKind::Sdf,
            width: s.sdf_w,
            height: s.sdf_h,
            format: TextureFormat::R16Float,
            filter: FilterMode::Linear,
        },
    );
    v.push(
        TargetSpec {
            kind: TargetKind::Probe,
            width: s.primary_w,
            height: s.primary_h,
            format: TextureFormat::Rgba16Float,
            filter: FilterMode::Nearest,
        },
    );
    v.push(
        TargetSpec {
            kind: TargetKind::Bounce,
            width: s.primary_w,
            height: s.primary_h,
            format: TextureFormat::Rgba32Float,
            filter: FilterMode::Nearest,
        },
    );
    v.push(
        TargetSpec {
            kind: TargetKind::Blend,
            width: s.probe_w,
            height: s.probe_h,
            format: TextureFormat::Rgba32Float,
            filter: FilterMode::Nearest,
        },
    );
    v.push(
        TargetSpec {
            kind: TargetKind::Irradiance,
            width: s.primary_w,
            height: s.primary_h,
            format: TextureFormat::Rgba32Float,
            filter: FilterMode::Nearest,
        },
    );
    v.push(
        TargetSpec {
            kind: TargetKind::Pose,
            width: s.primary_w,
            height: s.primary_h,
            format: TextureFormat::Rg32Float,
            filter: FilterMode::Nearest,
        },
    );
    v
}

} // verus!
