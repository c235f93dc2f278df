use magic_light_2d::dispatch::{plan_frame, FramePlan, Stage, SuspendReason};
use magic_light_2d::readiness::{check_resources_ready, GpuResource, ResourceStatus};
use magic_light_2d::targets::{
    align_to_workgroup_grid, compositor_inputs, compute_target_sizes, layer_specs, target_specs,
    CompositorSource, ComputedTargetSizes, FilterMode, LayerKind, TargetKind, TargetScaling,
    TextureFormat,
};

fn all_ready() -> ResourceStatus {
    ResourceStatus {
        light_sources: true,
        light_occluders: true,
        camera_params: true,
        light_pass_params: true,
        probes: true,
        skylight_masks: true,
        sdf_target: true,
        probe_target: true,
        bounce_target: true,
        blend_target: true,
        filter_target: true,
        pose_target: true,
    }
}

fn hd_sizes() -> ComputedTargetSizes {
    compute_target_sizes(1920, 1080, &TargetScaling::defaults())
}

#[test]
fn window_size_divides_into_target_sizes() {
    let s = hd_sizes();
    assert_eq!((s.primary_w, s.primary_h), (1920, 1080));
    assert_eq!((s.sdf_w, s.sdf_h), (960, 540));
    assert_eq!((s.probe_w, s.probe_h), (240, 135));
    assert!(s.is_valid());
}

#[test]
fn zero_resolution_suspends_all_dispatches() {
    // A minimized window computes (0, 0) targets; no GPU work may be
    // issued until a valid resolution is restored.
    let s = compute_target_sizes(0, 0, &TargetScaling::defaults());
    assert!(!s.is_valid());
    let plan = plan_frame(&s, true, &all_ready());
    assert_eq!(plan, FramePlan::Suspended(SuspendReason::DegenerateTargetSize));
    let restored = plan_frame(&hd_sizes(), true, &all_ready());
    assert!(matches!(restored, FramePlan::Run(_)));
}

#[test]
fn zero_height_alone_suspends() {
    let s = compute_target_sizes(1920, 0, &TargetScaling::defaults());
    assert!(!s.is_valid());
    let plan = plan_frame(&s, true, &all_ready());
    assert_eq!(plan, FramePlan::Suspended(SuspendReason::DegenerateTargetSize));
}

#[test]
fn uncompiled_pipelines_suspend() {
    let plan = plan_frame(&hd_sizes(), false, &all_ready());
    assert_eq!(plan, FramePlan::Suspended(SuspendReason::PipelinesNotCompiled));
}

#[test]
fn missing_resource_suspends_and_is_named() {
    let mut status = all_ready();
    status.probes = false;
    let plan = plan_frame(&hd_sizes(), true, &status);
    assert_eq!(
        plan,
        FramePlan::Suspended(SuspendReason::ResourceMissing(GpuResource::Probes))
    );
}

#[test]
fn ready_frame_dispatches_five_stages_in_order() {
    let plan = plan_frame(&hd_sizes(), true, &all_ready());
    match plan {
        FramePlan::Run(ops) => {
            assert_eq!(ops.len(), 5);
            assert_eq!(ops[0].stage, Stage::SdfBuild);
            assert_eq!(ops[1].stage, Stage::ProbeSample);
            assert_eq!(ops[2].stage, Stage::Bounce);
            assert_eq!(ops[3].stage, Stage::Blend);
            assert_eq!(ops[4].stage, Stage::SpatialFilter);
            // sdf 960x540 -> 120x68 workgroups (540 rounds up).
            assert_eq!((ops[0].grid.x, ops[0].grid.y), (120, 68));
            // probe grid 240x135 -> 30x17.
            assert_eq!((ops[1].grid.x, ops[1].grid.y), (30, 17));
            assert_eq!((ops[2].grid.x, ops[2].grid.y), (30, 17));
            assert_eq!((ops[3].grid.x, ops[3].grid.y), (30, 17));
            // primary 1920x1080 -> 240x135.
            assert_eq!((ops[4].grid.x, ops[4].grid.y), (240, 135));
        }
        FramePlan::Suspended(reason) => panic!("unexpected suspension: {:?}", reason),
    }
}

#[test]
fn readiness_gate_reports_first_missing() {
    assert_eq!(check_resources_ready(&all_ready()), Ok(()));
    let mut status = all_ready();
    status.light_occluders = false;
    status.blend_target = false;
    // Buffers are checked before textures, in a fixed order.
    assert_eq!(
        check_resources_ready(&status),
        Err(GpuResource::LightOccluders)
    );
    status.light_occluders = true;
    assert_eq!(check_resources_ready(&status), Err(GpuResource::BlendTarget));
}

#[test]
fn workgroup_alignment_rounds_up() {
    assert_eq!(align_to_workgroup_grid(0), 0);
    assert_eq!(align_to_workgroup_grid(1), 8);
    assert_eq!(align_to_workgroup_grid(8), 8);
    assert_eq!(align_to_workgroup_grid(1080), 1080);
    assert_eq!(align_to_workgroup_grid(1081), 1088);
}

#[test]
fn texture_table_lists_all_six_targets() {
    let specs = target_specs(&hd_sizes());
    assert_eq!(specs.len(), 6);
    assert_eq!(specs[0].kind, TargetKind::Sdf);
    assert_eq!((specs[0].width, specs[0].height), (960, 540));
    assert_eq!(specs[0].format, TextureFormat::R16Float);
    assert_eq!(specs[0].filter, FilterMode::Linear);
    // The blend buffer lives on the probe grid.
    assert_eq!(specs[3].kind, TargetKind::Blend);
    assert_eq!((specs[3].width, specs[3].height), (240, 135));
    // Everything but the distance field is point-sampled at primary size.
    assert_eq!(specs[4].kind, TargetKind::Irradiance);
    assert_eq!((specs[4].width, specs[4].height), (1920, 1080));
    assert_eq!(specs[4].format, TextureFormat::Rgba32Float);
    assert_eq!(specs[4].filter, FilterMode::Nearest);
    assert_eq!(specs[5].kind, TargetKind::Pose);
    assert_eq!(specs[5].format, TextureFormat::Rg32Float);
}

#[test]
fn opaque_layers_follow_primary_resolution() {
    let layers = layer_specs(&hd_sizes());
    assert_eq!(layers.len(), 3);
    assert_eq!(layers[0].kind, LayerKind::Floor);
    assert_eq!(layers[1].kind, LayerKind::Walls);
    assert_eq!(layers[2].kind, LayerKind::Objects);
    for layer in &layers {
        assert_eq!((layer.width, layer.height), (1920, 1080));
    }
}

#[test]
fn compositor_reads_three_layers_and_irradiance() {
    let inputs = compositor_inputs();
    assert_eq!(
        inputs,
        vec![
            CompositorSource::Layer(LayerKind::Floor),
            CompositorSource::Layer(LayerKind::Walls),
            CompositorSource::Layer(LayerKind::Objects),
            CompositorSource::Target(TargetKind::Irradiance),
        ]
    );
}
