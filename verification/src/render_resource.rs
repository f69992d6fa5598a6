//! Plain-data descriptions of the GPU resources a post-process pass declares:
//! bind-group layouts and render-pipeline descriptors.
//!
//! A descriptor is immutable once built. Labels are diagnostic only and take
//! no part in descriptor matching, so two descriptors that differ only in
//! their labels describe the same pipeline.

use vstd::prelude::*;

use crate::shader::str_view_eq;
use crate::shader::ShaderHandle;

verus! {

/// All color channels enabled in a color write mask.
pub const COLOR_WRITES_ALL: u32 = 15;

/// The set of pipeline stages a resource binding is visible to.
#[derive(Clone, Copy, PartialEq, Eq, Structural, Debug)]
pub struct ShaderStages {
    pub vertex: bool,
    pub fragment: bool,
}

/// How a sampled texture is read by the shader.
#[derive(Clone, Copy, PartialEq, Eq, Structural, Debug)]
pub enum TextureSampleType {
    Float { filterable: bool },
    Depth,
    Sint,
    Uint,
}

/// Dimensionality of a texture view.
#[derive(Clone, Copy, PartialEq, Eq, Structural, Debug)]
pub enum TextureViewDimension {
    D1,
    D2,
    D3,
    Cube,
}

/// What kind of sampling a sampler binding performs.
#[derive(Clone, Copy, PartialEq, Eq, Structural, Debug)]
pub enum SamplerBindingType {
    Filtering,
    NonFiltering,
    Comparison,
}

/// The resource kind of one binding slot.
#[derive(Clone, Copy, PartialEq, Eq, Structural, Debug)]
pub enum BindingType {
    Texture {
        sample_type: TextureSampleType,
        view_dimension: TextureViewDimension,
        multisampled: bool,
    },
    Sampler(SamplerBindingType),
}

/// One slot of a bind-group layout: a binding index, the stages that may read
/// it, and the kind of resource bound there.
#[derive(Clone, Copy, PartialEq, Eq, Structural, Debug)]
pub struct BindGroupLayoutEntry {
    pub binding: u32,
    pub visibility: ShaderStages,
    pub ty: BindingType,
}

/// An ordered sequence of binding slots a pass will read.
pub struct BindGroupLayoutDescriptor {
    pub label: String,
    pub entries: Vec<BindGroupLayoutEntry>,
}

/// Color formats a pass may render to.
#[derive(Clone, Copy, PartialEq, Eq, Structural, Debug)]
pub enum TextureFormat {
    Rgba8UnormSrgb,
    Bgra8UnormSrgb,
    Rgba16Float,
}

/// The engine's canonical swap-chain color format.
pub open spec fn canonical_format() -> TextureFormat {
    TextureFormat::Bgra8UnormSrgb
}

/// Returns the engine's canonical swap-chain color format.
pub fn swap_chain_format() -> (r: TextureFormat)
    ensures
        r == canonical_format(),
{
    TextureFormat::Bgra8UnormSrgb
}

/// One color output of a pipeline. `blend == false` means no blending: the
/// output overwrites the target, alpha forced opaque.
#[derive(Clone, Copy, PartialEq, Eq, Structural, Debug)]
pub struct ColorTargetState {
    pub format: TextureFormat,
    pub blend: bool,
    pub write_mask: u32,
}

/// How vertices are assembled into primitives.
#[derive(Clone, Copy, PartialEq, Eq, Structural, Debug)]
pub enum PrimitiveTopology {
    PointList,
    LineList,
    TriangleList,
    TriangleStrip,
}

/// The vertex stage of a pipeline: a shader and its entry point.
pub struct VertexState {
    pub shader: ShaderHandle,
    pub entry_point: String,
}

/// The fragment stage of a pipeline: a shader, its entry point, and the
/// single color target it writes.
pub struct FragmentState {
    pub shader: ShaderHandle,
    pub entry_point: String,
    pub target: ColorTargetState,
}

/// Everything the backend needs to compile one graphics pipeline.
/// `depth_stencil == false` means no depth/stencil test.
pub struct RenderPipelineDescriptor {
    pub label: String,
    pub layout: BindGroupLayoutDescriptor,
    pub vertex: VertexState,
    pub fragment: FragmentState,
    pub primitive: PrimitiveTopology,
    pub depth_stencil: bool,
    pub multisample_count: u32,
}

/// Two layouts match when they declare the same binding slots in the same
/// order; labels are diagnostic only.
pub open spec fn layout_matches(a: BindGroupLayoutDescriptor, b: BindGroupLayoutDescriptor) -> bool {
    a.entries@ == b.entries@
}

/// Value equality of two pipeline descriptors, the key the pipeline cache
/// deduplicates by. Labels are diagnostic only and are not compared.
pub open spec fn desc_matches(a: RenderPipelineDescriptor, b: RenderPipelineDescriptor) -> bool {
    &&& a.layout.entries@ == b.layout.entries@
    &&& a.vertex.shader == b.vertex.shader
    &&& a.vertex.entry_point@ == b.vertex.entry_point@
    &&& a.fragment.shader == b.fragment.shader
    &&& a.fragment.entry_point@ == b.fragment.entry_point@
    &&& a.fragment.target == b.fragment.target
    &&& a.primitive == b.primitive
    &&& a.depth_stencil == b.depth_stencil
    &&& a.multisample_count == b.multisample_count
}

/// Decides `layout_matches`.
pub fn layout_eq(a: &BindGroupLayoutDescriptor, b: &BindGroupLayoutDescriptor) -> (r: bool)
    ensures
        r == layout_matches(*a, *b),
{
    let a_len = a.entries.len();
    let b_len = b.entries.len();
    if a_len != b_len {
        assert(a.entries@.len() != b.entries@.len());
        return false;
    }
    let mut i: usize = 0;
    while i < a_len
        invariant
            a_len == a.entries@.len(),
            b_len == b.entries@.len(),
            a_len == b_len,
            i <= a_len,
            forall|j: int| 0 <= j < i ==> a.entries@[j] == b.entries@[j],
        decreases a_len - i,
    {
        if !(a.entries[i] == b.entries[i]) {
            return false;
        }
        i += 1;
    }
    proof {
        assert(a.entries@ =~= b.entries@);
    }
    true
}

/// Decides `desc_matches`.
pub fn desc_eq(a: &RenderPipelineDescriptor, b: &RenderPipelineDescriptor) -> (r: bool)
    ensures
        r == desc_matches(*a, *b),
{
    layout_eq(&a.layout, &b.layout) && a.vertex.shader.id == b.vertex.shader.id && str_view_eq(
        a.vertex.entry_point.as_str(),
        b.vertex.entry_point.as_str(),
    ) && a.fragment.shader.id == b.fragment.shader.id && str_view_eq(
        a.fragment.entry_point.as_str(),
        b.fragment.entry_point.as_str(),
    ) && a.fragment.target == b.fragment.target && a.primitive == b.primitive && a.depth_stencil
        == b.depth_stencil && a.multisample_count == b.multisample_count
}

} // verus!
