//! The fixed bind-group topology of the five kernel stages.
//!
//! Each stage binds a fixed, ordered list of buffers and textures.  The
//! list is declarative data: the host walks it once at initialization to
//! build both the bind-group layouts and the per-frame bind groups, so
//! layout and usage cannot drift apart.

use vstd::prelude::*;

use crate::dispatch::Stage;
use crate::targets::TargetKind;

verus! {

/// The GPU buffers the stages bind.
#[derive(Clone, Copy, PartialEq, Eq, Structural, Debug)]
pub enum BufferKind {
    /// Uniform camera parameters.
    CameraParams,
    /// Uniform light-pass parameters.
    LightPassParams,
    /// Probe reservoir storage.
    Probes,
    /// Skylight mask storage.
    SkylightMasks,
    /// Light source storage.
    LightSources,
    /// Occluder storage.
    Occluders,
}

/// One bindable resource: a buffer, a texture, or a texture's sampler.
#[derive(Clone, Copy, PartialEq, Eq, Structural, Debug)]
pub enum BindResource {
    Buffer(BufferKind),
    Texture(TargetKind),
    TextureSampler(TargetKind),
}

/// How a stage accesses a bound resource.
#[derive(Clone, Copy, PartialEq, Eq, Structural, Debug)]
pub enum BindAccess {
    /// Read-only uniform buffer.
    Uniform,
    /// Read-only storage buffer.
    StorageRead,
    /// Read-write storage texture.
    TextureReadWrite,
    /// Read-only storage texture.
    TextureReadOnly,
    /// Write-only storage texture.
    TextureWriteOnly,
    /// Sampled (filterable) texture.
    TextureSampled,
    /// Filtering sampler.
    Sampler,
}

/// One slot of a stage's bind group: its binding index, the resource,
/// and the access mode.
#[derive(Clone, Copy, PartialEq, Eq, Structural, Debug)]
pub struct BindingDecl {
    pub binding: u32,
    pub resource: BindResource,
    pub access: BindAccess,
}

/// Shorthand for one table row.
pub open spec fn row(binding: u32, resource: BindResource, access: BindAccess) -> BindingDecl {
    BindingDecl { binding, resource, access }
}

/// The fixed binding table of one stage.
pub open spec fn stage_layout(stage: Stage) -> Seq<BindingDecl> {
    match stage {
        Stage::SdfBuild => seq![
            row(0, BindResource::Buffer(BufferKind::CameraParams), BindAccess::Uniform),
            row(1, BindResource::Buffer(BufferKind::Occluders), BindAccess::StorageRead),
            row(2, BindResource::Texture(TargetKind::Sdf), BindAccess::TextureReadWrite),
        ],
        Stage::ProbeSample => seq![
            row(0, BindResource::Buffer(BufferKind::CameraParams), BindAccess::Uniform),
            row(1, BindResource::Buffer(BufferKind::LightPassParams), BindAccess::Uniform),
            row(2, BindResource::Buffer(BufferKind::Probes), BindAccess::StorageRead),
            row(3, BindResource::Buffer(BufferKind::SkylightMasks), BindAccess::StorageRead),
            row(4, BindResource::Buffer(BufferKind::LightSources), BindAccess::StorageRead),
            row(5, BindResource::Texture(TargetKind::Sdf), BindAccess::TextureSampled),
            row(6, BindResource::TextureSampler(TargetKind::Sdf), BindAccess::Sampler),
            row(7, BindResource::Texture(TargetKind::Probe), BindAccess::TextureWriteOnly),
        ],
        Stage::Bounce => seq![
            row(0, BindResource::Buffer(BufferKind::CameraParams), BindAccess::Uniform),
            row(1, BindResource::Buffer(BufferKind::LightPassParams), BindAccess::Uniform),
            row(2, BindResource::Texture(TargetKind::Sdf), BindAccess::TextureSampled),
            row(3, BindResource::TextureSampler(TargetKind::Sdf), BindAccess::Sampler),
            row(4, BindResource::Texture(TargetKind::Probe), BindAccess::TextureReadOnly),
            row(5, BindResource::Texture(TargetKind::Bounce), BindAccess::TextureWriteOnly),
        ],
        Stage::Blend => seq![
            row(0, BindResource::Buffer(BufferKind::CameraParams), BindAccess::Uniform),
            row(1, BindResource::Buffer(BufferKind::LightPassParams), BindAccess::Uniform),
            row(2, BindResource::Buffer(BufferKind::Probes), BindAccess::StorageRead),
            row(3, BindResource::Texture(TargetKind::Sdf), BindAccess::TextureSampled),
            row(4, BindResource::TextureSampler(TargetKind::Sdf), BindAccess::Sampler),
            row(5, BindResource::Texture(TargetKind::Bounce), BindAccess::TextureReadOnly),
            row(6, BindResource::Texture(TargetKind::Blend), BindAccess::TextureWriteOnly),
        ],
        Stage::SpatialFilter => seq![
            row(0, BindResource::Buffer(BufferKind::CameraParams), BindAccess::Uniform),
            row(1, BindResource::Buffer(BufferKind::LightPassParams), BindAccess::Uniform),
            row(2, BindResource::Buffer(BufferKind::Probes), BindAccess::StorageRead),
            row(3, BindResource::Texture(TargetKind::Sdf), BindAccess::TextureSampled),
            row(4, BindResource::TextureSampler(TargetKind::Sdf), BindAccess::Sampler),
            row(5, BindResource::Texture(TargetKind::Blend), BindAccess::TextureReadOnly),
            row(6, BindResource::Texture(TargetKind::Irradiance), BindAccess::TextureWriteOnly),
            row(7, BindResource::Texture(TargetKind::Pose), BindAccess::TextureWriteOnly),
        ],
    }
}

/// In every stage's table the binding indices are exactly the row
/// positions, in order.
pub proof fn lemma_bindings_consecutive(stage: Stage)
    ensures
        forall|i: int|
            0 <= i < stage_layout(stage).len() ==> (#[trigger] stage_layout(stage)[i]).binding
                == i,
{
}

/// Builds the binding table of one stage for the host to realize.
pub fn stage_bindings(stage: Stage) -> (v: Vec<BindingDecl>)
    ensures
        v@ =~= stage_layout(stage),
{
    let mut v: Vec<BindingDecl> = Vec::new();
    match stage {
        Stage::SdfBuild => {
            v.push(
                BindingDecl {
                    binding: 0,
                    resource: BindResource::Buffer(BufferKind::CameraParams),
                    access: BindAccess::Uniform,
                },
            );
            v.push(
                BindingDecl {
                    binding: 1,
                    resource: BindResource::Buffer(BufferKind::Occluders),
                    access: BindAccess::StorageRead,
                },
            );
            v.push(
                BindingDecl {
                    binding: 2,
                    resource: BindResource::Texture(TargetKind::Sdf),
                    access: BindAccess::TextureReadWrite,
                },
            );
        },
        Stage::ProbeSample => {
            v.push(
                BindingDecl {
                    binding: 0,
                    resource: BindResource::Buffer(BufferKind::CameraParams),
                    access: BindAccess::Uniform,
                },
            );
            v.push(
                BindingDecl {
                    binding: 1,
                    resource: BindResource::Buffer(BufferKind::LightPassParams),
                    access: BindAccess::Uniform,
                },
            );
            v.push(
                BindingDecl {
                    binding: 2,
                    resource: BindResource::Buffer(BufferKind::Probes),
                    access: BindAccess::StorageRead,
                },
            );
            v.push(
                BindingDecl {
                    binding: 3,
                    resource: BindResource::Buffer(BufferKind::SkylightMasks),
                    access: BindAccess::StorageRead,
                },
            );
            v.push(
                BindingDecl {
                    binding: 4,
                    resource: BindResource::Buffer(BufferKind::LightSources),
                    access: BindAccess::StorageRead,
                },
            );
            v.push(
                BindingDecl {
                    binding: 5,
                    resource: BindResource::Texture(TargetKind::Sdf),
                    access: BindAccess::TextureSampled,
                },
            );
            v.push(
                BindingDecl {
                    binding: 6,
                    resource: BindResource::TextureSampler(TargetKind::Sdf),
                    access: BindAccess::Sampler,
                },
            );
            v.push(
                BindingDecl {
                    binding: 7,
                    resource: BindResource::Texture(TargetKind::Probe),
                    access: BindAccess::TextureWriteOnly,
                },
            );
        },
        Stage::Bounce => {
            v.push(
                BindingDecl {
                    binding: 0,
                    resource: BindResource::Buffer(BufferKind::CameraParams),
                    access: BindAccess::Uniform,
                },
            );
            v.push(
                BindingDecl {
                    binding: 1,
                    resource: BindResource::Buffer(BufferKind::LightPassParams),
                    access: BindAccess::Uniform,
                },
            );
            v.push(
                BindingDecl {
                    binding: 2,
                    resource: BindResource::Texture(TargetKind::Sdf),
                    access: BindAccess::TextureSampled,
                },
            );
            v.push(
                BindingDecl {
                    binding: 3,
                    resource: BindResource::TextureSampler(TargetKind::Sdf),
                    access: BindAccess::Sampler,
                },
            );
            v.push(
                BindingDecl {
                    binding: 4,
                    resource: BindResource::Texture(TargetKind::Probe),
                    access: BindAccess::TextureReadOnly,
                },
            );
            v.push(
                BindingDecl {
                    binding: 5,
                    resource: BindResource::Texture(TargetKind::Bounce),
                    access: BindAccess::TextureWriteOnly,
                },
            );
        },
        Stage::Blend => {
            v.push(
                BindingDecl {
                    binding: 0,
                    resource: BindResource::Buffer(BufferKind::CameraParams),
                    access: BindAccess::Uniform,
                },
            );
            v.push(
                BindingDecl {
                    binding: 1,
                    resource: BindResource::Buffer(BufferKind::LightPassParams),
                    access: BindAccess::Uniform,
                },
            );
            v.push(
                BindingDecl {
                    binding: 2,
                    resource: BindResource::Buffer(BufferKind::Probes),
                    access: BindAccess::StorageRead,
                },
            );
            v.push(
                BindingDecl {
                    binding: 3,
                    resource: BindResource::Texture(TargetKind::Sdf),
                    access: BindAccess::TextureSampled,
                },
            );
            v.push(
                BindingDecl {
                    binding: 4,
                    resource: BindResource::TextureSampler(TargetKind::Sdf),
                    access: BindAccess::Sampler,
                },
            );
            v.push(
                BindingDecl {
                    binding: 5,
                    resource: BindResource::Texture(TargetKind::Bounce),
                    access: BindAccess::TextureReadOnly,
                },
            );
            v.push(
                BindingDecl {
                    binding: 6,
                    resource: BindResource::Texture(TargetKind::Blend),
                    access: BindAccess::TextureWriteOnly,
                },
            );
        },
        Stage::SpatialFilter => {
            v.push(
                BindingDecl {
                    binding: 0,
                    resource: BindResource::Buffer(BufferKind::CameraParams),
                    access: BindAccess::Uniform,
                },
            );
            v.push(
                BindingDecl {
                    binding: 1,
                    resource: BindResource::Buffer(BufferKind::LightPassParams),
                    access: BindAccess::Uniform,
                },
            );
            v.push(
                BindingDecl {
                    binding: 2,
                    resource: BindResource::Buffer(BufferKind::Probes),
                    access: BindAccess::StorageRead,
                },
            );
            v.push(
                BindingDecl {
                    binding: 3,
                    resource: BindResource::Texture(TargetKind::Sdf),
                    access: BindAccess::TextureSampled,
                },
            );
            v.push(
                BindingDecl {
                    binding: 4,
                    resource: BindResource::TextureSampler(TargetKind::Sdf),
                    access: BindAccess::Sampler,
                },
            );
            v.push(
                BindingDecl {
                    binding: 5,
                    resource: BindResource::Texture(TargetKind::Blend),
                    access: BindAccess::TextureReadOnly,
                },
            );
            v.push(
                BindingDecl {
                    binding: 6,
                    resource: BindResource::Texture(TargetKind::Irradiance),
                    access: BindAccess::TextureWriteOnly,
                },
            );
            v.push(
                BindingDecl {
                    binding: 7,
                    resource: BindResource::Texture(TargetKind::Pose),
                    access: BindAccess::TextureWriteOnly,
                },
            );
        },
    }
    v
}

} // verus!
