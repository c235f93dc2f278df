//! The per-frame pipeline context and frame extraction.
//!
//! All mutable pipeline state that survives a frame — the cyclic frame
//! counter, the temporal tracker's previous camera, the probe
//! reservoir's pose slots — lives in one explicit context.  Once per
//! frame, `extract_frame` turns the host's scene state into the full
//! set of GPU buffer contents: the snapshot buffers, the camera
//! parameters with the temporal reset flag, and the light-pass
//! parameters; it then advances the counter and the reservoir.

use vstd::prelude::*;

use crate::frame::{cycle_len, next_counter_spec, next_frame_counter, MAX_PROBE_SIZE};
use crate::matrix::{is_product, mat_mul, product_entry, Mat4Fx, RawMat};
use crate::scalar::{scalar_ok, Fx2, Fx3, MICRO};
use crate::scene::{LightEntity, MaskEntity, OccluderEntity, Rgb, SkylightLight, MAX_ENTITIES};
use crate::snapshot::{
    mask_entry_of,
    skylight_sum,
    snapshot_lights_spec,
    snapshot_occluders_spec,
    visible_light_count,
    visible_occluder_count,
    JitterDraw,
    LightBuffer,
    LightEntry,
    MaskBuffer,
    MaskEntry,
    OccluderBuffer,
    OccluderEntry,
};
use crate::targets::ComputedTargetSizes;
use crate::tracker::{reset_triggered, CameraSnapshot, TemporalTracker};

verus! {

/// The fixed distance-field coordinate scale (2.0 in micro-units).
pub const SDF_SCALE: i64 = 2_000_000;

/// The reciprocal of the distance-field scale (0.5 in micro-units).
pub const INV_SDF_SCALE: i64 = 500_000;

/// Global tunables of the light pass, set once by the host.
#[derive(Clone, Copy, PartialEq, Eq, Structural, Debug)]
pub struct LightPassSettings {
    /// Temporal sample count of the reservoir.
    pub reservoir_size: u32,
    /// Smoothing kernel width.
    pub smooth_kernel_w: u32,
    /// Smoothing kernel height.
    pub smooth_kernel_h: u32,
    /// Weight of direct lighting in micro-units.
    pub direct_light_contrib: i64,
    /// Weight of indirect lighting in micro-units.
    pub indirect_light_contrib: i64,
    /// Indirect rays cast per probe sample.
    pub indirect_rays_per_sample: u32,
    /// Indirect ray radius factor in micro-units.
    pub indirect_rays_radius_factor: i64,
}

impl LightPassSettings {
    /// The weights bounded.
    pub open spec fn wf(self) -> bool {
        scalar_ok(self.direct_light_contrib) && scalar_ok(self.indirect_light_contrib)
            && scalar_ok(self.indirect_rays_radius_factor)
    }
}

/// The active camera as the host hands it in: its projection and view
/// matrices with their inverses (the host's linear algebra computes the
/// inverses at the float boundary), and its world translation.
#[derive(Clone, PartialEq, Eq, Debug)]
pub struct CameraInput {
    pub projection: Mat4Fx,
    pub inverse_projection: Mat4Fx,
    pub view: Mat4Fx,
    pub inverse_view: Mat4Fx,
    pub translation: Fx3,
}

impl CameraInput {
    /// All matrices and the translation bounded.
    pub open spec fn wf(self) -> bool {
        self.projection.wf() && self.inverse_projection.wf() && self.view.wf()
            && self.inverse_view.wf() && self.translation.wf()
    }

    /// The orthographic scale: the projection matrix's first diagonal
    /// element.
    pub open spec fn scale(self) -> i64 {
        self.projection.e[0]
    }
}

/// Everything the snapshot builder reads from the scene this frame.
/// `camera` is `None` when no (or no unique) floor camera exists; the
/// frame then proceeds with neutral camera parameters.
#[derive(Clone, PartialEq, Eq, Debug)]
pub struct SceneInput {
    pub lights: Vec<LightEntity>,
    pub occluders: Vec<OccluderEntity>,
    pub masks: Vec<MaskEntity>,
    pub skylights: Vec<SkylightLight>,
    pub camera: Option<CameraInput>,
}

impl SceneInput {
    /// Entity lists capped and well formed; the camera, if any, well
    /// formed.
    pub open spec fn wf(self) -> bool {
        &&& self.lights@.len() <= MAX_ENTITIES
        &&& self.occluders@.len() <= MAX_ENTITIES
        &&& self.masks@.len() <= MAX_ENTITIES
        &&& self.skylights@.len() <= MAX_ENTITIES
        &&& forall|i: int| 0 <= i < self.lights@.len() ==> (#[trigger] self.lights@[i]).wf()
        &&& forall|i: int| 0 <= i < self.occluders@.len() ==> (#[trigger] self.occluders@[i]).wf()
        &&& forall|i: int| 0 <= i < self.skylights@.len() ==> (#[trigger] self.skylights@[i]).wf()
        &&& match self.camera {
            Option::Some(c) => c.wf(),
            Option::None => true,
        }
    }
}

/// The per-frame camera uniform contents.
#[derive(Clone, PartialEq, Eq, Debug)]
pub struct CameraParams {
    /// Projection times inverse view, in raw micro-squared units.
    pub view_proj: RawMat,
    /// View times inverse projection, in raw micro-squared units.
    pub inverse_view_proj: RawMat,
    pub screen_w: u32,
    pub screen_h: u32,
    /// Distance-field coordinate scale in micro-units.
    pub sdf_scale: i64,
    /// Its reciprocal in micro-units.
    pub inv_sdf_scale: i64,
    /// Whether consuming stages must discard accumulated history this
    /// frame.
    pub temporal_reset: bool,
}

/// The per-frame light-pass uniform contents.
#[derive(Clone, Copy, PartialEq, Eq, Structural, Debug)]
pub struct LightPassParams {
    /// This frame's reservoir slot.
    pub frame_counter: u32,
    /// Probe cell size in pixels.
    pub probe_size: u32,
    /// Probe atlas column count.
    pub probe_atlas_cols: u32,
    /// Probe atlas row count.
    pub probe_atlas_rows: u32,
    pub reservoir_size: u32,
    pub smooth_kernel_w: u32,
    pub smooth_kernel_h: u32,
    pub direct_light_contrib: i64,
    pub indirect_light_contrib: i64,
    pub indirect_rays_per_sample: u32,
    pub indirect_rays_radius_factor: i64,
    /// Accumulated skylight color.
    pub skylight_color: Rgb,
}

/// Everything `extract_frame` produces for upload: the three snapshot
/// buffers and the two uniform blocks.
#[derive(Clone, PartialEq, Eq, Debug)]
pub struct FrameAssets {
    pub lights: LightBuffer,
    pub occluders: OccluderBuffer,
    pub masks: MaskBuffer,
    pub camera: CameraParams,
    pub params: LightPassParams,
}

/// The mutable pipeline state carried across frames.
#[derive(Clone, PartialEq, Eq, Debug)]
pub struct PipelineContext {
    /// Probe cell size; fixes the reservoir cycle at its square.
    pub probe_size: u32,
    /// Current reservoir slot, always inside the cycle.
    pub frame_counter: u32,
    /// The temporal coherence tracker.
    pub tracker: TemporalTracker,
    /// Camera pose per reservoir slot, the anchor for reprojection.
    pub reservoir: Vec<Fx2>,
    /// The light-pass tunables.
    pub settings: LightPassSettings,
}

impl PipelineContext {
    /// Probe size in range, counter inside the cycle, one reservoir
    /// slot per cycle frame, tracker and settings bounded.
    pub open spec fn wf(self) -> bool {
        &&& 1 <= self.probe_size <= MAX_PROBE_SIZE
        &&& 0 <= self.frame_counter < cycle_len(self.probe_size)
        &&& self.reservoir@.len() == cycle_len(self.probe_size)
        &&& self.tracker.wf()
        &&& self.settings.wf()
    }

    /// A fresh context: counter at zero, no previous camera, and a
    /// zeroed reservoir with one slot per frame of the cycle.
    pub fn new(settings: LightPassSettings) -> (ctx: PipelineContext)
        requires
            settings.wf(),
        ensures
            ctx.wf(),
            ctx.probe_size == crate::PROBE_SIZE,
            ctx.frame_counter == 0,
            ctx.tracker.prev is None,
            ctx.settings == settings,
            forall|i: int|
                0 <= i < ctx.reservoir@.len() ==> (#[trigger] ctx.reservoir@[i]) == (Fx2 {
                    x: 0,
                    y: 0,
                }),
    {
        proof {
            crate::frame::lemma_cycle_len_positive(crate::PROBE_SIZE);
            crate::frame::lemma_cycle_len_fits(crate::PROBE_SIZE);
        }
        let slots: u32 = crate::PROBE_SIZE * crate::PROBE_SIZE;
        let mut reservoir: Vec<Fx2> = Vec::new();
        let mut i: u32 = 0;
        while i < slots
            invariant
                i <= slots,
                reservoir@.len() == i,
                forall|k: int|
                    0 <= k < reservoir@.len() ==> (#[trigger] reservoir@[k]) == (Fx2 {
                        x: 0,
                        y: 0,
                    }),
            decreases slots - i,
        {
            reservoir.push(Fx2 { x: 0, y: 0 });
            i = i + 1;
        }
        PipelineContext {
            probe_size: crate::PROBE_SIZE,
            frame_counter: 0,
            tracker: TemporalTracker::new(),
            reservoir,
            settings,
        }
    }
}

/// The temporal reset decision for this frame, given the previous
/// camera snapshot (if any) and the current quantities.
pub open spec fn reset_decision(
    prev: Option<CameraSnapshot>,
    view_proj: RawMat,
    translation: Fx3,
    scale: i64,
) -> bool {
    match prev {
        Option::Some(p) => reset_triggered(p, view_proj, translation, scale),
        Option::None => false,
    }
}

/// A raw matrix is the identity in micro-squared units.
pub open spec fn is_identity_raw(m: RawMat) -> bool {
    m.e.len() == 16 && forall|i: int|
        0 <= i < 16 ==> m.e[i] == (
        if i % 5 == 0 {
            (MICRO * MICRO) as int
        } else {
            0
        })
}

/// Two raw matrices with the same mathematical product content trigger
/// the same reset decision.
proof fn lemma_reset_same_product(
    prev: Option<CameraSnapshot>,
    a: RawMat,
    b: RawMat,
    p: Mat4Fx,
    iv: Mat4Fx,
    translation: Fx3,
    scale: i64,
)
    requires
        is_product(a, p, iv),
        is_product(b, p, iv),
    ensures
        reset_decision(prev, a, translation, scale) == reset_decision(prev, b, translation, scale),
{
    assert(a.e@ =~= b.e@) by {
        assert forall|i: int| 0 <= i < 16 implies a.e@[i] == b.e@[i] by {
            assert(a.e[(i / 4) * 4 + (i % 4)] == product_entry(p, iv, i % 4, i / 4));
            assert(b.e[(i / 4) * 4 + (i % 4)] == product_entry(p, iv, i % 4, i / 4));
        }
    }
}

/// Extracts one frame.
///
/// The snapshot buffers hold exactly the visible lights (jittered),
/// the visible occluders, every mask, and the summed skylight color.
/// With a camera, the camera uniforms carry the exact fixed-point
/// products `projection * inverse_view` and `view *
/// inverse_projection`, and the temporal reset flag is exactly the
/// threshold decision against the previous frame; the tracker then
/// remembers this frame.  Without a camera the uniforms are neutral
/// (identity matrices, no reset) and the tracker is left alone.  The
/// frame counter advances cyclically — forced to zero by a reset — and
/// this frame's camera pose is recorded in the reservoir slot the
/// counter now names.
pub fn extract_frame(
    ctx: &mut PipelineContext,
    scene: &SceneInput,
    sizes: &ComputedTargetSizes,
) -> (out: FrameAssets)
    requires
        old(ctx).wf(),
        scene.wf(),
    ensures
        final(ctx).wf(),
// the context advances only in its counter, reservoir and tracker
        final(ctx).probe_size == old(ctx).probe_size,
        final(ctx).settings == old(ctx).settings,
// light buffer: visible lights in order, under some in-range draws
        exists|ds: Seq<JitterDraw>|
            {
                &&& ds.len() == scene.lights@.len()
                &&& forall|i: int| 0 <= i < ds.len() ==> (#[trigger] ds[i]).wf()
                &&& out.lights.data@.map_values(|x: LightEntry| x@) == snapshot_lights_spec(
                    scene.lights@,
                    ds,
                )
            },
        out.lights.count == visible_light_count(scene.lights@),
        out.lights.count == out.lights.data@.len(),
// occluder buffer: visible occluders in order, rotations conjugated
        out.occluders.data@.map_values(|x: OccluderEntry| x@) == snapshot_occluders_spec(
            scene.occluders@,
        ),
        out.occluders.count == visible_occluder_count(scene.occluders@),
        out.occluders.count == out.occluders.data@.len(),
// mask buffer: every mask
        out.masks.data@.map_values(|x: MaskEntry| x@) == scene.masks@.map_values(
            |e: MaskEntity| mask_entry_of(e),
        ),
        out.masks.count == scene.masks@.len(),
// camera uniforms
        match scene.camera {
            Option::Some(cam) => {
                &&& is_product(out.camera.view_proj, cam.projection, cam.inverse_view)
                &&& is_product(out.camera.inverse_view_proj, cam.view, cam.inverse_projection)
                &&& out.camera.temporal_reset == reset_decision(
                    old(ctx).tracker.prev,
                    out.camera.view_proj,
                    cam.translation,
                    cam.scale(),
                )
                &&& match final(ctx).tracker.prev {
                    Option::Some(p) => is_product(p.view_proj, cam.projection, cam.inverse_view)
                        && p.translation == cam.translation && p.scale == cam.scale(),
                    Option::None => false,
                }
            },
            Option::None => {
                &&& is_identity_raw(out.camera.view_proj)
                &&& is_identity_raw(out.camera.inverse_view_proj)
                &&& !out.camera.temporal_reset
                &&& final(ctx).tracker == old(ctx).tracker
            },
        },
        out.camera.screen_w == sizes.primary_w,
        out.camera.screen_h == sizes.primary_h,
        out.camera.sdf_scale == SDF_SCALE,
        out.camera.inv_sdf_scale == INV_SDF_SCALE,
// the frame counter: incremented and wrapped, or forced to zero by a
// reset
        final(ctx).frame_counter == next_counter_spec(
            old(ctx).frame_counter,
            old(ctx).probe_size,
            out.camera.temporal_reset,
        ),
        out.params.frame_counter == final(ctx).frame_counter,
// this frame's camera pose lands in the slot the counter now names
        final(ctx).reservoir@ == old(ctx).reservoir@.update(
            final(ctx).frame_counter as int,
            match scene.camera {
                Option::Some(cam) => Fx2 { x: cam.translation.x, y: cam.translation.y },
                Option::None => Fx2 { x: 0, y: 0 },
            },
        ),
// light-pass uniforms
        out.params.probe_size == old(ctx).probe_size,
        out.params.probe_atlas_cols == sizes.probe_w,
        out.params.probe_atlas_rows == sizes.probe_h,
        out.params.reservoir_size == old(ctx).settings.reservoir_size,
        out.params.smooth_kernel_w == old(ctx).settings.smooth_kernel_w,
        out.params.smooth_kernel_h == old(ctx).settings.smooth_kernel_h,
        out.params.direct_light_contrib == old(ctx).settings.direct_light_contrib,
        out.params.indirect_light_contrib == old(ctx).settings.indirect_light_contrib,
        out.params.indirect_rays_per_sample == old(ctx).settings.indirect_rays_per_sample,
        out.params.indirect_rays_radius_factor == old(
            ctx,
        ).settings.indirect_rays_radius_factor,
        out.params.skylight_color.r == skylight_sum(scene.skylights@).0,
        out.params.skylight_color.g == skylight_sum(scene.skylights@).1,
        out.params.skylight_color.b == skylight_sum(scene.skylights@).2,
{
    let lights = crate::snapshot::build_light_buffer(&scene.lights);
    let occluders = crate::snapshot::build_occluder_buffer(&scene.occluders);
    let masks = crate::snapshot::build_mask_buffer(&scene.masks);
    let skylight_color = crate::snapshot::accumulate_skylight(&scene.skylights);

    let (camera, pose): (CameraParams, Fx2) = match &scene.camera {
        Some(cam) => {
            let tracker_vp = mat_mul(&cam.projection, &cam.inverse_view);
            let view_proj = mat_mul(&cam.projection, &cam.inverse_view);
            let inverse_view_proj = mat_mul(&cam.view, &cam.inverse_projection);
            let scale: i64 = cam.projection.e[0];
            let ghost prev = ctx.tracker.prev;
            let reset = ctx.tracker.observe(tracker_vp, cam.translation, scale);
            proof {
                lemma_reset_same_product(
                    prev,
                    tracker_vp,
                    view_proj,
                    cam.projection,
                    cam.inverse_view,
                    cam.translation,
                    scale,
                );
            }
            (
                CameraParams {
                    view_proj,
                    inverse_view_proj,
                    screen_w: sizes.primary_w,
                    screen_h: sizes.primary_h,
                    sdf_scale: SDF_SCALE,
                    inv_sdf_scale: INV_SDF_SCALE,
                    temporal_reset: reset,
                },
                cam.translation.truncate(),
            )
        },
        None => {
            (
                CameraParams {
                    view_proj: RawMat::identity(),
                    inverse_view_proj: RawMat::identity(),
                    screen_w: sizes.primary_w,
                    screen_h: sizes.primary_h,
                    sdf_scale: SDF_SCALE,
                    inv_sdf_scale: INV_SDF_SCALE,
                    temporal_reset: false,
                },
                Fx2 { x: 0, y: 0 },
            )
        },
    };

    let new_counter = next_frame_counter(ctx.frame_counter, ctx.probe_size, camera.temporal_reset);
    ctx.frame_counter = new_counter;
    let idx: usize = new_counter as usize;
    ctx.reservoir.set(idx, pose);

    let params = LightPassParams {
        frame_counter: new_counter,
        probe_size: ctx.probe_size,
        probe_atlas_cols: sizes.probe_w,
        probe_atlas_rows: sizes.probe_h,
        reservoir_size: ctx.settings.reservoir_size,
        smooth_kernel_w: ctx.settings.smooth_kernel_w,
        smooth_kernel_h: ctx.settings.smooth_kernel_h,
        direct_light_contrib: ctx.settings.direct_light_contrib,
        indirect_light_contrib: ctx.settings.indirect_light_contrib,
        indirect_rays_per_sample: ctx.settings.indirect_rays_per_sample,
        indirect_rays_radius_factor: ctx.settings.indirect_rays_radius_factor,
        skylight_color,
    };

    FrameAssets { lights, occluders, masks, camera, params }
}

} // verus!
