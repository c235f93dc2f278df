//! Temporal coherence tracking.
//!
//! Accumulated irradiance history is only valid while the camera stands
//! still.  Each frame the tracker compares the current view-projection
//! matrix, camera position and orthographic scale against the previous
//! frame's; when any change exceeds its threshold it raises the temporal
//! reset signal, telling the blend stage to discard the reservoir.  The
//! thresholds are deliberately tight: 2D orthographic zooms are subtle in
//! matrix form, and stale history shows up as ghosting.

use vstd::prelude::*;

use crate::matrix::{max_diff_upto, Mat4Fx, RawMat};
use crate::scalar::{abs_val, dist_sq, distance_squared, scalar_ok, Fx3, MICRO, SCALAR_LIMIT};

verus! {

/// Squared camera-movement threshold: 0.01 square units, in
/// micro-squared units.
pub const MOVEMENT_THRESHOLD_SQ: i128 = 10_000_000_000;

/// Orthographic scale threshold: 0.001 units, in micro-units.
pub const SCALE_THRESHOLD: i64 = 1_000;

/// Element-wise view-projection difference threshold: 0.01 units, in
/// micro-squared units (view-projection matrices are raw products).
pub const PROJECTION_THRESHOLD: i128 = 10_000_000_000;

/// What the tracker remembers of the camera from the previous frame.
#[derive(Clone, PartialEq, Eq, Debug)]
pub struct CameraSnapshot {
    /// Previous view-projection matrix (raw product, micro-squared units).
    pub view_proj: RawMat,
    /// Previous camera world position.
    pub translation: Fx3,
    /// Previous orthographic scale, read from the projection matrix's
    /// first diagonal element.
    pub scale: i64,
}

impl CameraSnapshot {
    /// All parts bounded.
    pub open spec fn wf(self) -> bool {
        self.view_proj.wf() && self.translation.wf() && scalar_ok(self.scale)
    }
}

/// The temporal reset condition: the camera moved, zoomed, or its
/// view-projection matrix drifted beyond the thresholds since `prev`.
pub open spec fn reset_triggered(
    prev: CameraSnapshot,
    view_proj: RawMat,
    translation: Fx3,
    scale: i64,
) -> bool {
    dist_sq(translation, prev.translation) > MOVEMENT_THRESHOLD_SQ || abs_val(scale - prev.scale)
        > SCALE_THRESHOLD || max_diff_upto(view_proj.e@, prev.view_proj.e@, 16)
        > PROJECTION_THRESHOLD
}

/// Per-frame camera state carried across frames to decide temporal
/// resets.
#[derive(Clone, PartialEq, Eq, Debug)]
pub struct TemporalTracker {
    /// `None` until the first frame with a camera has been observed.
    pub prev: Option<CameraSnapshot>,
}

impl TemporalTracker {
    /// The remembered snapshot, if any, is bounded.
    pub open spec fn wf(self) -> bool {
        match self.prev {
            Option::Some(p) => p.wf(),
            Option::None => true,
        }
    }

    /// A tracker that has seen no frame yet.
    pub fn new() -> (t: TemporalTracker)
        ensures
            t.prev is None,
            t.wf(),
    {
        TemporalTracker { prev: None }
    }

    /// Feeds one frame's camera state to the tracker.  Returns the
    /// temporal reset flag for this frame: `false` on the very first
    /// observed frame, else exactly the threshold comparison against the
    /// previous frame.  The tracker then remembers the current state.
    pub fn observe(&mut self, view_proj: RawMat, translation: Fx3, scale: i64) -> (reset: bool)
        requires
            old(self).wf(),
            view_proj.wf(),
            translation.wf(),
            scalar_ok(scale),
        ensures
            final(self).wf(),
            final(self).prev == Some(
                CameraSnapshot { view_proj, translation, scale },
            ),
            reset == match old(self).prev {
                Option::Some(p) => reset_triggered(p, view_proj, translation, scale),
                Option::None => false,
            },
    {
        let reset: bool = match &self.prev {
            Some(p) => {
                let movement: i128 = distance_squared(&translation, &p.translation);
                let scale_diff: i64 = crate::scalar::abs_diff(scale, p.scale);
                let proj_diff: i128 = crate::matrix::max_abs_diff(&view_proj, &p.view_proj);
                movement > MOVEMENT_THRESHOLD_SQ || scale_diff > SCALE_THRESHOLD || proj_diff
                    > PROJECTION_THRESHOLD
            },
            None => false,
        };
        self.prev = Some(CameraSnapshot { view_proj, translation, scale });
        reset
    }
}

/// A camera whose movement, zoom and projection drift all stay within
/// the thresholds does not trigger a temporal reset.
pub proof fn lemma_still_camera_keeps_history(
    prev: CameraSnapshot,
    view_proj: RawMat,
    translation: Fx3,
    scale: i64,
)
    requires
        dist_sq(translation, prev.translation) <= MOVEMENT_THRESHOLD_SQ,
        abs_val(scale - prev.scale) <= SCALE_THRESHOLD,
        max_diff_upto(view_proj.e@, prev.view_proj.e@, 16) <= PROJECTION_THRESHOLD,
    ensures
        !reset_triggered(prev, view_proj, translation, scale),
{
}

/// A camera translated by a vector whose squared length exceeds the
/// movement threshold triggers a temporal reset, whatever the other
/// quantities do.
pub proof fn lemma_large_movement_resets(
    prev: CameraSnapshot,
    view_proj: RawMat,
    translation: Fx3,
    scale: i64,
)
    requires
        dist_sq(translation, prev.translation) > MOVEMENT_THRESHOLD_SQ,
    ensures
        reset_triggered(prev, view_proj, translation, scale),
{
}

/// A zoom whose scale change exceeds the scale threshold triggers a
/// temporal reset, whatever the other quantities do.
pub proof fn lemma_zoom_resets(
    prev: CameraSnapshot,
    view_proj: RawMat,
    translation: Fx3,
    scale: i64,
)
    requires
        abs_val(scale - prev.scale) > SCALE_THRESHOLD,
    ensures
        reset_triggered(prev, view_proj, translation, scale),
{
}

/// Average orthographic scale of a projection matrix: the mean of the
/// magnitudes of its first two diagonal elements, in micro-units.
pub open spec fn avg_scale(m: Mat4Fx) -> int {
    (abs_val(m.e[0] as int) + abs_val(m.e[5] as int)) / 2
}

/// Standalone tracker for significant relative changes of the projection
/// matrix scale, used to invalidate temporal data over several frames.
#[derive(Clone, PartialEq, Eq, Debug)]
pub struct ProjectionTracker {
    /// Previous frame's projection matrix.
    pub previous_view_proj: Option<Mat4Fx>,
    /// Relative scale-change threshold in micro-units (e.g. 100_000 for a
    /// 10% change).
    pub scale_change_threshold: i64,
    /// Number of frames to invalidate temporal data after a change.
    pub invalidation_frames: u32,
}

impl ProjectionTracker {
    /// The remembered matrix, if any, is bounded, and the threshold is a
    /// nonnegative bounded scalar.
    pub open spec fn wf(self) -> bool {
        (match self.previous_view_proj {
            Option::Some(m) => m.wf(),
            Option::None => true,
        }) && 0 <= self.scale_change_threshold <= SCALAR_LIMIT
    }

    /// A tracker with the default 10% relative threshold and a three
    /// frame invalidation window.
    pub fn new() -> (t: ProjectionTracker)
        ensures
            t.previous_view_proj is None,
            t.scale_change_threshold == 100_000,
            t.invalidation_frames == 3,
            t.wf(),
    {
        ProjectionTracker {
            previous_view_proj: None,
            scale_change_threshold: 100_000,
            invalidation_frames: 3,
        }
    }

    /// Compares the current matrix's average scale against the previous
    /// frame's.  Returns whether the relative change exceeds the
    /// threshold, together with the relative change in micro-units
    /// (rounded down).  The comparison is exact: with `d` the absolute
    /// scale difference and `p > 0` the previous scale, the change is
    /// significant if and only if `d / p` exceeds the threshold, i.e.
    /// `d * MICRO > threshold * p`.  Without a previous frame, or with a
    /// degenerate previous scale, nothing is significant.  The stored
    /// matrix is not advanced here; `update_projection` does that.
    pub fn detect_projection_change(&mut self, current: &Mat4Fx) -> (r: (bool, i64))
        requires
            old(self).wf(),
            current.wf(),
        ensures
            *final(self) == *old(self),
            r.0 == match old(self).previous_view_proj {
                Option::Some(p) => avg_scale(p) > 0 && abs_val(
                    avg_scale(*current) - avg_scale(p),
                ) * MICRO > old(self).scale_change_threshold * avg_scale(p),
                Option::None => false,
            },
            r.1 == match old(self).previous_view_proj {
                Option::Some(p) => if avg_scale(p) > 0 {
                    abs_val(avg_scale(*current) - avg_scale(p)) * MICRO / avg_scale(p)
                } else {
                    0
                },
                Option::None => 0,
            },
    {
        match &self.previous_view_proj {
            Some(p) => {
                let pa: i64 = if p.e[0] >= 0 {
                    p.e[0]
                } else {
                    -p.e[0]
                };
                let pb: i64 = if p.e[5] >= 0 {
                    p.e[5]
                } else {
                    -p.e[5]
                };
                let prev_scale: i64 = (pa + pb) / 2;
                let ca: i64 = if current.e[0] >= 0 {
                    current.e[0]
                } else {
                    -current.e[0]
                };
                let cb: i64 = if current.e[5] >= 0 {
                    current.e[5]
                } else {
                    -current.e[5]
                };
                let cur_scale: i64 = (ca + cb) / 2;
                if prev_scale > 0 {
                    let diff: i64 = if cur_scale >= prev_scale {
                        cur_scale - prev_scale
                    } else {
                        prev_scale - cur_scale
                    };
                    proof {
                        crate::scalar::lemma_mul_le(
                            diff as int,
                            MICRO as int,
                            2 * SCALAR_LIMIT as int,
                            MICRO as int,
                        );
                        crate::scalar::lemma_mul_le(
                            self.scale_change_threshold as int,
                            prev_scale as int,
                            SCALAR_LIMIT as int,
                            SCALAR_LIMIT as int,
                        );
                    }
                    let scaled: i128 = diff as i128 * MICRO as i128;
                    let bound: i128 = self.scale_change_threshold as i128 * prev_scale as i128;
                    let significant: bool = scaled > bound;
                    let num: u64 = diff as u64 * MICRO as u64;
                    let ratio_u: u64 = num / prev_scale as u64;
                    proof {
                        assert(0 <= num as int / (prev_scale as u64) as int <= num as int)
                            by (nonlinear_arith)
                            requires
                                num as int >= 0,
                                (prev_scale as u64) as int >= 1,
                        ;
                    }
                    let ratio: i64 = ratio_u as i64;
                    (significant, ratio)
                } else {
                    (false, 0)
                }
            },
            None => (false, 0),
        }
    }

    /// Stores the given matrix as the previous frame's projection.
    pub fn update_projection(&mut self, view_proj: Mat4Fx)
        requires
            old(self).wf(),
            view_proj.wf(),
        ensures
            final(self).wf(),
            final(self).previous_view_proj == Some(view_proj),
            final(self).scale_change_threshold == old(self).scale_change_threshold,
            final(self).invalidation_frames == old(self).invalidation_frames,
    {
        self.previous_view_proj = Some(view_proj);
    }
}

} // verus!
