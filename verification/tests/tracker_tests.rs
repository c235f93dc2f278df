use magic_light_2d::matrix::{mat_mul, Mat4Fx};
use magic_light_2d::scalar::{Fx3, MICRO};
use magic_light_2d::tracker::{ProjectionTracker, TemporalTracker};

fn scaled_matrix(scale: i64) -> Mat4Fx {
    let mut e = vec![0i64; 16];
    e[0] = scale;
    e[5] = scale;
    e[10] = scale;
    e[15] = MICRO;
    Mat4Fx { e }
}

fn identity_matrix() -> Mat4Fx {
    scaled_matrix(MICRO)
}

#[test]
fn first_frame_never_resets() {
    let mut tracker = TemporalTracker::new();
    let vp = mat_mul(&identity_matrix(), &identity_matrix());
    let reset = tracker.observe(vp, Fx3 { x: 0, y: 0, z: 0 }, MICRO);
    assert!(!reset);
}

#[test]
fn still_camera_keeps_history() {
    let mut tracker = TemporalTracker::new();
    let vp1 = mat_mul(&identity_matrix(), &identity_matrix());
    tracker.observe(vp1, Fx3 { x: 0, y: 0, z: 0 }, MICRO);
    let vp2 = mat_mul(&identity_matrix(), &identity_matrix());
    let reset = tracker.observe(vp2, Fx3 { x: 0, y: 0, z: 0 }, MICRO);
    assert!(!reset);
}

#[test]
fn small_movement_below_threshold_keeps_history() {
    // 0.05 units of travel: squared distance 0.0025, threshold is 0.01.
    let mut tracker = TemporalTracker::new();
    let vp1 = mat_mul(&identity_matrix(), &identity_matrix());
    tracker.observe(vp1, Fx3 { x: 0, y: 0, z: 0 }, MICRO);
    let vp2 = mat_mul(&identity_matrix(), &identity_matrix());
    let reset = tracker.observe(vp2, Fx3 { x: 50_000, y: 0, z: 0 }, MICRO);
    assert!(!reset);
}

#[test]
fn large_movement_resets() {
    // 0.2 units of travel: squared distance 0.04, above the 0.01 threshold.
    let mut tracker = TemporalTracker::new();
    let vp1 = mat_mul(&identity_matrix(), &identity_matrix());
    tracker.observe(vp1, Fx3 { x: 0, y: 0, z: 0 }, MICRO);
    let vp2 = mat_mul(&identity_matrix(), &identity_matrix());
    let reset = tracker.observe(vp2, Fx3 { x: 200_000, y: 0, z: 0 }, MICRO);
    assert!(reset);
}

#[test]
fn zoom_above_threshold_resets() {
    // Scale 1.0 -> 1.2 in one frame is far above the 0.001 threshold.
    let mut tracker = TemporalTracker::new();
    let vp1 = mat_mul(&scaled_matrix(MICRO), &identity_matrix());
    tracker.observe(vp1, Fx3 { x: 0, y: 0, z: 0 }, MICRO);
    let vp2 = mat_mul(&scaled_matrix(1_200_000), &identity_matrix());
    let reset = tracker.observe(vp2, Fx3 { x: 0, y: 0, z: 0 }, 1_200_000);
    assert!(reset);
}

#[test]
fn tiny_zoom_below_threshold_keeps_history() {
    // Scale 1.0 -> 1.0005: the scale difference (0.0005) and every matrix
    // element difference stay below their thresholds.
    let mut tracker = TemporalTracker::new();
    let vp1 = mat_mul(&scaled_matrix(MICRO), &identity_matrix());
    tracker.observe(vp1, Fx3 { x: 0, y: 0, z: 0 }, MICRO);
    let vp2 = mat_mul(&scaled_matrix(1_000_500), &identity_matrix());
    let reset = tracker.observe(vp2, Fx3 { x: 0, y: 0, z: 0 }, 1_000_500);
    assert!(!reset);
}

#[test]
fn projection_tracker_defaults() {
    let tracker = ProjectionTracker::new();
    assert!(tracker.previous_view_proj.is_none());
    assert_eq!(tracker.scale_change_threshold, 100_000);
    assert_eq!(tracker.invalidation_frames, 3);
}

#[test]
fn projection_tracker_no_previous_no_change() {
    let mut tracker = ProjectionTracker::new();
    let (significant, ratio) = tracker.detect_projection_change(&scaled_matrix(MICRO));
    assert!(!significant);
    assert_eq!(ratio, 0);
}

#[test]
fn projection_tracker_large_relative_change() {
    // 1.0 -> 1.2 is a 20% relative change, above the 10% threshold; the
    // reported ratio is 0.2 in micro-units.
    let mut tracker = ProjectionTracker::new();
    tracker.update_projection(scaled_matrix(MICRO));
    let (significant, ratio) = tracker.detect_projection_change(&scaled_matrix(1_200_000));
    assert!(significant);
    assert_eq!(ratio, 200_000);
}

#[test]
fn projection_tracker_small_relative_change() {
    // 1.0 -> 1.05 is a 5% relative change, below the 10% threshold.
    let mut tracker = ProjectionTracker::new();
    tracker.update_projection(scaled_matrix(MICRO));
    let (significant, ratio) = tracker.detect_projection_change(&scaled_matrix(1_050_000));
    assert!(!significant);
    assert_eq!(ratio, 50_000);
}

#[test]
fn projection_tracker_degenerate_previous_scale() {
    let mut tracker = ProjectionTracker::new();
    tracker.update_projection(scaled_matrix(0));
    let (significant, ratio) = tracker.detect_projection_change(&scaled_matrix(MICRO));
    assert!(!significant);
    assert_eq!(ratio, 0);
}
