use magic_light_2d::scalar::{Fx2, MICRO};
use magic_light_2d::scene::{
    Falloff, LightEntity, MaskEntity, OccluderEntity, OmniLight, Quat4, Rgb, SkylightLight,
};
use magic_light_2d::snapshot::{
    accumulate_skylight, apply_jitter, build_light_buffer, build_light_buffer_with,
    build_mask_buffer, build_occluder_buffer, JitterDraw,
};

fn plain_light(x: i64, y: i64, intensity: i64, visible: bool) -> LightEntity {
    LightEntity {
        light: OmniLight {
            color: Rgb { r: MICRO, g: MICRO, b: MICRO },
            intensity,
            falloff: Falloff { constant: MICRO, linear: 10 * MICRO, quadratic: 10_000 },
            jitter_intensity: 0,
            jitter_translation: 0,
        },
        position: Fx2 { x, y },
        hierarchy_visible: visible,
        view_visible: visible,
    }
}

fn plain_occluder(x: i64, hier: bool, view: bool) -> OccluderEntity {
    OccluderEntity {
        center: Fx2 { x, y: 0 },
        rotation: Quat4 { x: 100, y: -200, z: 300, w: MICRO },
        half_extent: Fx2 { x: MICRO, y: 2 * MICRO },
        hierarchy_visible: hier,
        view_visible: view,
    }
}

#[test]
fn apply_jitter_exact_values() {
    // A draw of 0.5 over an amplitude of 2.0 is a 1.0 jitter.
    assert_eq!(apply_jitter(500_000, 2_000_000), 1_000_000);
    assert_eq!(apply_jitter(-500_000, 2_000_000), -1_000_000);
    assert_eq!(apply_jitter(MICRO, 300_000), 300_000);
    assert_eq!(apply_jitter(123_456, 0), 0);
    assert_eq!(apply_jitter(0, 5_000_000), 0);
}

#[test]
fn zero_jitter_snapshot_is_deterministic() {
    // With all jitter amplitudes zero, two runs over the same scene give
    // identical buffers, whatever the random draws were.
    let lights = vec![
        plain_light(0, 0, MICRO, true),
        plain_light(3 * MICRO, -2 * MICRO, 2 * MICRO, true),
    ];
    let a = build_light_buffer(&lights);
    let b = build_light_buffer(&lights);
    assert_eq!(a, b);
    // The occluder builder draws nothing, so its buffer is identical
    // across runs with no condition at all.
    let occluders = vec![plain_occluder(MICRO, true, true)];
    assert_eq!(build_occluder_buffer(&occluders), build_occluder_buffer(&occluders));
}

#[test]
fn zero_draws_and_zero_amplitudes_copy_lights_exactly() {
    let lights = vec![plain_light(7 * MICRO, -MICRO, 4 * MICRO, true)];
    let draws = vec![JitterDraw { di: 250_000, dx: -999_999, dy: MICRO }];
    let out = build_light_buffer_with(&lights, &draws);
    assert_eq!(out.count, 1);
    // Amplitudes are zero, so the nonzero draws leave no trace.
    assert_eq!(out.data[0].position, Fx2 { x: 7 * MICRO, y: -MICRO });
    assert_eq!(out.data[0].intensity, 4 * MICRO);
    assert_eq!(out.data[0].color, Rgb { r: MICRO, g: MICRO, b: MICRO });
}

#[test]
fn invisible_light_is_excluded() {
    let lights = vec![
        plain_light(MICRO, 0, MICRO, true),
        plain_light(2 * MICRO, 0, MICRO, false),
        plain_light(3 * MICRO, 0, MICRO, true),
    ];
    let out = build_light_buffer(&lights);
    assert_eq!(out.count, 2);
    assert_eq!(out.data.len(), 2);
    assert_eq!(out.data[0].position.x, MICRO);
    assert_eq!(out.data[1].position.x, 3 * MICRO);
}

#[test]
fn jittered_intensity_stays_within_amplitude() {
    let mut light = plain_light(10 * MICRO, 10 * MICRO, 5 * MICRO, true);
    light.light.jitter_intensity = MICRO;
    light.light.jitter_translation = 2 * MICRO;
    let lights = vec![light];
    for _ in 0..32 {
        let out = build_light_buffer(&lights);
        assert_eq!(out.count, 1);
        let e = &out.data[0];
        assert!(e.intensity >= 4 * MICRO && e.intensity <= 6 * MICRO);
        assert!(e.position.x >= 8 * MICRO && e.position.x <= 12 * MICRO);
        assert!(e.position.y >= 8 * MICRO && e.position.y <= 12 * MICRO);
    }
}

#[test]
fn occluder_rotation_is_conjugated() {
    let out = build_occluder_buffer(&vec![plain_occluder(5 * MICRO, true, true)]);
    assert_eq!(out.count, 1);
    let e = &out.data[0];
    assert_eq!(e.center, Fx2 { x: 5 * MICRO, y: 0 });
    assert_eq!(e.rotation, Quat4 { x: -100, y: 200, z: -300, w: MICRO });
    assert_eq!(e.h_extent, Fx2 { x: MICRO, y: 2 * MICRO });
}

#[test]
fn occluder_with_both_flags_clear_is_excluded() {
    let out = build_occluder_buffer(&vec![
        plain_occluder(MICRO, true, true),
        plain_occluder(2 * MICRO, false, false),
        plain_occluder(3 * MICRO, true, true),
    ]);
    assert_eq!(out.count, 2);
    assert_eq!(out.data[0].center.x, MICRO);
    assert_eq!(out.data[1].center.x, 3 * MICRO);
}

#[test]
fn occluder_with_one_flag_clear_is_excluded() {
    let out = build_occluder_buffer(&vec![
        plain_occluder(MICRO, true, false),
        plain_occluder(2 * MICRO, false, true),
    ]);
    assert_eq!(out.count, 0);
    assert!(out.data.is_empty());
}

#[test]
fn masks_are_taken_unfiltered() {
    let masks = vec![
        MaskEntity { center: Fx2 { x: 0, y: 0 }, half_extent: Fx2 { x: MICRO, y: MICRO } },
        MaskEntity {
            center: Fx2 { x: 4 * MICRO, y: 5 * MICRO },
            half_extent: Fx2 { x: 2 * MICRO, y: 3 * MICRO },
        },
    ];
    let out = build_mask_buffer(&masks);
    assert_eq!(out.count, 2);
    assert_eq!(out.data[0].center, Fx2 { x: 0, y: 0 });
    assert_eq!(out.data[1].h_extent, Fx2 { x: 2 * MICRO, y: 3 * MICRO });
}

#[test]
fn skylight_colors_accumulate() {
    // 0.5 * 2.0 = 1.0 on red, plus a second emitter's 0.25 * 4.0 = 1.0.
    let emitters = vec![
        SkylightLight {
            color: Rgb { r: 500_000, g: MICRO, b: 250_000 },
            intensity: 2 * MICRO,
        },
        SkylightLight { color: Rgb { r: 250_000, g: 0, b: MICRO }, intensity: 4 * MICRO },
    ];
    let c = accumulate_skylight(&emitters);
    assert_eq!(c.r, 2 * MICRO);
    assert_eq!(c.g, 2 * MICRO);
    assert_eq!(c.b, 4_500_000);
}

#[test]
fn empty_scene_gives_empty_buffers() {
    let lights: Vec<LightEntity> = Vec::new();
    let out = build_light_buffer(&lights);
    assert_eq!(out.count, 0);
    assert!(out.data.is_empty());
    let occluders: Vec<OccluderEntity> = Vec::new();
    let occ = build_occluder_buffer(&occluders);
    assert_eq!(occ.count, 0);
    let emitters: Vec<SkylightLight> = Vec::new();
    let c = accumulate_skylight(&emitters);
    assert_eq!((c.r, c.g, c.b), (0, 0, 0));
}
