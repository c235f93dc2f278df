use magic_light_2d::context::{
    extract_frame, CameraInput, LightPassSettings, PipelineContext, SceneInput,
};
use magic_light_2d::matrix::{Mat4Fx, RawMat};
use magic_light_2d::scalar::{Fx2, Fx3, MICRO};
use magic_light_2d::scene::{Falloff, LightEntity, OmniLight, Rgb};
use magic_light_2d::targets::{compute_target_sizes, TargetScaling};

fn settings() -> LightPassSettings {
    LightPassSettings {
        reservoir_size: 16,
        smooth_kernel_w: 2,
        smooth_kernel_h: 1,
        direct_light_contrib: 500_000,
        indirect_light_contrib: 500_000,
        indirect_rays_per_sample: 32,
        indirect_rays_radius_factor: 3_500_000,
    }
}

fn diag_matrix(scale: i64) -> Mat4Fx {
    let mut e = vec![0i64; 16];
    e[0] = scale;
    e[5] = scale;
    e[10] = scale;
    e[15] = MICRO;
    Mat4Fx { e }
}

fn camera_at(scale: i64, x: i64, y: i64) -> CameraInput {
    CameraInput {
        projection: diag_matrix(scale),
        inverse_projection: diag_matrix(scale),
        view: diag_matrix(MICRO),
        inverse_view: diag_matrix(MICRO),
        translation: Fx3 { x, y, z: 0 },
    }
}

fn one_light_scene(camera: Option<CameraInput>) -> SceneInput {
    SceneInput {
        lights: vec![LightEntity {
            light: OmniLight {
                color: Rgb { r: MICRO, g: MICRO, b: MICRO },
                intensity: MICRO,
                falloff: Falloff {
                    constant: MICRO,
                    linear: 10 * MICRO,
                    quadratic: 10_000,
                },
                jitter_intensity: 0,
                jitter_translation: 0,
            },
            position: Fx2 { x: 0, y: 0 },
            hierarchy_visible: true,
            view_visible: true,
        }],
        occluders: Vec::new(),
        masks: Vec::new(),
        skylights: Vec::new(),
        camera,
    }
}

#[test]
fn fresh_context_starts_cold() {
    let ctx = PipelineContext::new(settings());
    assert_eq!(ctx.probe_size, 8);
    assert_eq!(ctx.frame_counter, 0);
    assert!(ctx.tracker.prev.is_none());
    assert_eq!(ctx.reservoir.len(), 64);
    assert!(ctx.reservoir.iter().all(|p| *p == Fx2 { x: 0, y: 0 }));
}

#[test]
fn single_light_scene_extracts_one_entry() {
    let mut ctx = PipelineContext::new(settings());
    let sizes = compute_target_sizes(1920, 1080, &TargetScaling::defaults());
    let scene = one_light_scene(Some(camera_at(MICRO, 0, 0)));
    let out = extract_frame(&mut ctx, &scene, &sizes);
    assert_eq!(out.lights.count, 1);
    assert_eq!(out.lights.data[0].intensity, MICRO);
    assert_eq!(out.occluders.count, 0);
    assert_eq!(out.masks.count, 0);
    assert_eq!(out.params.probe_size, 8);
    assert_eq!(out.params.probe_atlas_cols, 240);
    assert_eq!(out.params.probe_atlas_rows, 135);
    assert_eq!(out.params.reservoir_size, 16);
    assert_eq!(out.params.skylight_color, Rgb { r: 0, g: 0, b: 0 });
    assert_eq!((out.camera.screen_w, out.camera.screen_h), (1920, 1080));
    assert_eq!(out.camera.sdf_scale, 2_000_000);
    assert_eq!(out.camera.inv_sdf_scale, 500_000);
    // First observed frame never resets; the counter advances to 1.
    assert!(!out.camera.temporal_reset);
    assert_eq!(out.params.frame_counter, 1);
    assert_eq!(ctx.frame_counter, 1);
}

#[test]
fn zoom_in_one_frame_resets_and_zeroes_counter() {
    // Camera zoom from scale 1.0 to 1.2 in one frame: far above the 0.1%
    // scale threshold, so the very same frame carries temporal_reset and
    // a frame counter forced to zero.
    let mut ctx = PipelineContext::new(settings());
    let sizes = compute_target_sizes(1920, 1080, &TargetScaling::defaults());
    let first = extract_frame(&mut ctx, &one_light_scene(Some(camera_at(MICRO, 0, 0))), &sizes);
    assert!(!first.camera.temporal_reset);
    assert_eq!(ctx.frame_counter, 1);
    let second = extract_frame(
        &mut ctx,
        &one_light_scene(Some(camera_at(1_200_000, 0, 0))),
        &sizes,
    );
    assert!(second.camera.temporal_reset);
    assert_eq!(second.params.frame_counter, 0);
    assert_eq!(ctx.frame_counter, 0);
}

#[test]
fn still_camera_counts_through_the_cycle() {
    let mut ctx = PipelineContext::new(settings());
    let sizes = compute_target_sizes(640, 480, &TargetScaling::defaults());
    for expected in 1..=64u32 {
        let out = extract_frame(&mut ctx, &one_light_scene(Some(camera_at(MICRO, 0, 0))), &sizes);
        assert!(!out.camera.temporal_reset);
        assert_eq!(ctx.frame_counter, expected % 64);
        assert!(ctx.frame_counter < 64);
    }
}

#[test]
fn camera_pose_lands_in_current_reservoir_slot() {
    let mut ctx = PipelineContext::new(settings());
    let sizes = compute_target_sizes(640, 480, &TargetScaling::defaults());
    extract_frame(
        &mut ctx,
        &one_light_scene(Some(camera_at(MICRO, 3 * MICRO, 4 * MICRO))),
        &sizes,
    );
    assert_eq!(ctx.frame_counter, 1);
    assert_eq!(ctx.reservoir[1], Fx2 { x: 3 * MICRO, y: 4 * MICRO });
}

#[test]
fn missing_camera_falls_back_to_neutral_params() {
    let mut ctx = PipelineContext::new(settings());
    let sizes = compute_target_sizes(640, 480, &TargetScaling::defaults());
    let out = extract_frame(&mut ctx, &one_light_scene(None), &sizes);
    // Neutral identity matrices, no reset, and the tracker unchanged.
    assert!(!out.camera.temporal_reset);
    assert_eq!(out.camera.view_proj, RawMat::identity());
    assert_eq!(out.camera.inverse_view_proj, RawMat::identity());
    assert!(ctx.tracker.prev.is_none());
    // The frame still proceeds: buffers are built and the counter moves.
    assert_eq!(out.lights.count, 1);
    assert_eq!(ctx.frame_counter, 1);
    assert_eq!(ctx.reservoir[1], Fx2 { x: 0, y: 0 });
}

#[test]
fn view_projection_product_is_exact() {
    // projection diag(2.0) times inverse view diag(1.0) gives a raw
    // product with 2.0 on the diagonal in micro-squared units.
    let mut ctx = PipelineContext::new(settings());
    let sizes = compute_target_sizes(640, 480, &TargetScaling::defaults());
    let out = extract_frame(
        &mut ctx,
        &one_light_scene(Some(camera_at(2 * MICRO, 0, 0))),
        &sizes,
    );
    let one_sq: i128 = (MICRO as i128) * (MICRO as i128);
    assert_eq!(out.camera.view_proj.e[0], 2 * one_sq);
    assert_eq!(out.camera.view_proj.e[5], 2 * one_sq);
    assert_eq!(out.camera.view_proj.e[10], 2 * one_sq);
    assert_eq!(out.camera.view_proj.e[15], one_sq);
    assert_eq!(out.camera.view_proj.e[1], 0);
}
