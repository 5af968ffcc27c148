//! The bind-group layout of the render pipeline, as plain data.
//!
//! One bind group carries three uniform buffers (camera and model matrices,
//! 64 bytes each, and the light block, 32 bytes) plus the texture view and
//! its sampler. The pipeline's layout must always match these sizes; the
//! render state keeps this layout unchanged across shader reloads.

use vstd::prelude::*;

verus! {

/// Size of the camera uniform block: one 4x4 matrix of 32-bit floats.
pub const CAMERA_UNIFORM_BYTES: u64 = 64;

/// Size of the model uniform block: one 4x4 matrix of 32-bit floats.
pub const MODEL_UNIFORM_BYTES: u64 = 64;

/// Size of the light uniform block: direction and color, each padded to 16
/// bytes.
pub const LIGHT_UNIFORM_BYTES: u64 = 32;

/// Which shader stage can see a binding.
#[derive(Clone, Copy, Debug, PartialEq, Eq, Structural)]
pub enum ShaderStage {
    Vertex,
    Fragment,
}

/// What kind of resource a binding holds.
#[derive(Clone, Copy, Debug, PartialEq, Eq, Structural)]
pub enum BindingKind {
    /// A uniform buffer with the given minimum binding size in bytes.
    UniformBuffer { min_size: u64 },
    /// A filterable two-dimensional texture view.
    Texture2d,
    /// A filtering sampler.
    Sampler,
}

/// One entry of the bind-group layout.
#[derive(Clone, Copy, Debug, PartialEq, Eq, Structural)]
pub struct LayoutEntry {
    pub binding: u32,
    pub visibility: ShaderStage,
    pub kind: BindingKind,
}

/// The bind-group layout of the pipeline: camera, model and light uniform
/// buffers, the cube texture, and its sampler.
pub open spec fn uniform_layout_spec() -> Seq<LayoutEntry> {
    seq![
        LayoutEntry {
            binding: 0,
            visibility: ShaderStage::Vertex,
            kind: BindingKind::UniformBuffer { min_size: CAMERA_UNIFORM_BYTES },
        },
        LayoutEntry {
            binding: 1,
            visibility: ShaderStage::Vertex,
            kind: BindingKind::UniformBuffer { min_size: MODEL_UNIFORM_BYTES },
        },
        LayoutEntry {
            binding: 2,
            visibility: ShaderStage::Fragment,
            kind: BindingKind::UniformBuffer { min_size: LIGHT_UNIFORM_BYTES },
        },
        LayoutEntry { binding: 3, visibility: ShaderStage::Fragment, kind: BindingKind::Texture2d },
        LayoutEntry { binding: 4, visibility: ShaderStage::Fragment, kind: BindingKind::Sampler },
    ]
}

/// Build the bind-group layout.
pub fn uniform_layout() -> (v: Vec<LayoutEntry>)
    ensures
        v@ == uniform_layout_spec(),
        v@.len() == 5,
{
    let mut v: Vec<LayoutEntry> = Vec::new();
    v.push(
        LayoutEntry {
            binding: 0,
            visibility: ShaderStage::Vertex,
            kind: BindingKind::UniformBuffer { min_size: CAMERA_UNIFORM_BYTES },
        },
    );
    v.push(
        LayoutEntry {
            binding: 1,
            visibility: ShaderStage::Vertex,
            kind: BindingKind::UniformBuffer { min_size: MODEL_UNIFORM_BYTES },
        },
    );
    v.push(
        LayoutEntry {
            binding: 2,
            visibility: ShaderStage::Fragment,
            kind: BindingKind::UniformBuffer { min_size: LIGHT_UNIFORM_BYTES },
        },
    );
    v.push(
        LayoutEntry { binding: 3, visibility: ShaderStage::Fragment, kind: BindingKind::Texture2d },
    );
    v.push(
        LayoutEntry { binding: 4, visibility: ShaderStage::Fragment, kind: BindingKind::Sampler },
    );
    proof {
        assert(v@ =~= uniform_layout_spec());
    }
    v
}

/// Law: the layout binds the three uniform blocks at slots 0, 1 and 2 with
/// sizes 64, 64 and 32 bytes, and each entry's slot is its index.
pub proof fn lemma_layout_matches_uniform_sizes()
    ensures
        uniform_layout_spec().len() == 5,
        uniform_layout_spec()[0].kind == (BindingKind::UniformBuffer {
            min_size: CAMERA_UNIFORM_BYTES,
        }),
        uniform_layout_spec()[1].kind == (BindingKind::UniformBuffer {
            min_size: MODEL_UNIFORM_BYTES,
        }),
        uniform_layout_spec()[2].kind == (BindingKind::UniformBuffer {
            min_size: LIGHT_UNIFORM_BYTES,
        }),
        uniform_layout_spec()[3].kind == BindingKind::Texture2d,
        uniform_layout_spec()[4].kind == BindingKind::Sampler,
        forall|i: int|
            0 <= i < 5 ==> #[trigger] uniform_layout_spec()[i].binding == i,
{
}

} // verus!
