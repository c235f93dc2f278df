use magic_light_2d::bindings::{stage_bindings, BindAccess, BindResource, BufferKind};
use magic_light_2d::dispatch::Stage;
use magic_light_2d::targets::TargetKind;

#[test]
fn every_stage_numbers_bindings_consecutively() {
    for stage in [
        Stage::SdfBuild,
        Stage::ProbeSample,
        Stage::Bounce,
        Stage::Blend,
        Stage::SpatialFilter,
    ] {
        let rows = stage_bindings(stage);
        for (i, row) in rows.iter().enumerate() {
            assert_eq!(row.binding as usize, i);
        }
    }
}

#[test]
fn sdf_stage_binds_camera_occluders_and_field() {
    let rows = stage_bindings(Stage::SdfBuild);
    assert_eq!(rows.len(), 3);
    assert_eq!(rows[0].resource, BindResource::Buffer(BufferKind::CameraParams));
    assert_eq!(rows[0].access, BindAccess::Uniform);
    assert_eq!(rows[1].resource, BindResource::Buffer(BufferKind::Occluders));
    assert_eq!(rows[1].access, BindAccess::StorageRead);
    assert_eq!(rows[2].resource, BindResource::Texture(TargetKind::Sdf));
    assert_eq!(rows[2].access, BindAccess::TextureReadWrite);
}

#[test]
fn probe_stage_reads_lights_and_writes_probes() {
    let rows = stage_bindings(Stage::ProbeSample);
    assert_eq!(rows.len(), 8);
    assert_eq!(rows[4].resource, BindResource::Buffer(BufferKind::LightSources));
    assert_eq!(rows[4].access, BindAccess::StorageRead);
    assert_eq!(rows[6].resource, BindResource::TextureSampler(TargetKind::Sdf));
    assert_eq!(rows[6].access, BindAccess::Sampler);
    assert_eq!(rows[7].resource, BindResource::Texture(TargetKind::Probe));
    assert_eq!(rows[7].access, BindAccess::TextureWriteOnly);
}

#[test]
fn each_stage_writes_its_own_target() {
    let bounce = stage_bindings(Stage::Bounce);
    assert_eq!(
        bounce.last().unwrap().resource,
        BindResource::Texture(TargetKind::Bounce)
    );
    assert_eq!(bounce.last().unwrap().access, BindAccess::TextureWriteOnly);
    let blend = stage_bindings(Stage::Blend);
    assert_eq!(
        blend.last().unwrap().resource,
        BindResource::Texture(TargetKind::Blend)
    );
    let filter = stage_bindings(Stage::SpatialFilter);
    assert_eq!(filter.len(), 8);
    assert_eq!(filter[6].resource, BindResource::Texture(TargetKind::Irradiance));
    assert_eq!(filter[7].resource, BindResource::Texture(TargetKind::Pose));
    assert_eq!(filter[7].access, BindAccess::TextureWriteOnly);
}
