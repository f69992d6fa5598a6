//! The FXAA post-process effect: its per-camera toggle and its process-wide
//! pipeline resource.
//!
//! The pipeline resource is built exactly once, at render-subsystem startup:
//! one bind-group layout (sampled texture + filtering sampler) shared by the
//! effect pipeline and the blit fallback pipeline, whose descriptors differ
//! only in fragment shader handle. Both descriptors are submitted to the
//! pipeline cache during construction and the returned handles are stored.

use vstd::prelude::*;

use crate::cache::PipelineCache;
use crate::cache::PipelineHandle;
use crate::cache::PipelineState;
use crate::fullscreen_vertex_shader::fullscreen_shader_vertex_state;
use crate::fullscreen_vertex_shader::is_fullscreen_vertex_state;
use crate::render_resource::canonical_format;
use crate::render_resource::desc_matches;
use crate::render_resource::swap_chain_format;
use crate::render_resource::BindGroupLayoutDescriptor;
use crate::render_resource::BindGroupLayoutEntry;
use crate::render_resource::BindingType;
use crate::render_resource::ColorTargetState;
use crate::render_resource::FragmentState;
use crate::render_resource::PrimitiveTopology;
use crate::render_resource::RenderPipelineDescriptor;
use crate::render_resource::SamplerBindingType;
use crate::render_resource::ShaderStages;
use crate::render_resource::TextureSampleType;
use crate::render_resource::TextureViewDimension;
use crate::render_resource::COLOR_WRITES_ALL;
use crate::shader::RegistryError;
use crate::shader::ShaderHandle;
use crate::shader::ShaderRegistry;

verus! {

/// Stable identifier of the FXAA fragment shader source.
pub const FXAA_SHADER_ID: u64 = 17015358199668024512;

/// Stable identifier of the shared FXAA helper source.
pub const FXAA_SHARED_SHADER_ID: u64 = 2499420578245347910;

/// Stable identifier of the blit (passthrough) fragment shader source.
pub const BLIT_SHADER_ID: u64 = 2982161071241723543;

/// Per-camera toggle for the effect. Owned by the camera entity in the
/// primary world; a read-only snapshot is copied into the render-side world
/// once per frame and never mutated by the render side.
#[derive(Clone, Copy, PartialEq, Eq, Structural, Debug)]
pub struct FXAA {
    pub is_enabled: bool,
}

impl FXAA {
    /// The per-entity extraction step: a plain value copy of the
    /// primary-world component into the render-side snapshot.
    pub fn extract_component(item: &FXAA) -> (r: FXAA)
        ensures
            r == *item,
    {
        *item
    }
}

/// One camera of the primary world that carries the toggle.
#[derive(Clone, Copy, PartialEq, Eq, Structural, Debug)]
pub struct ExtractedCamera {
    pub entity: u64,
    pub fxaa: FXAA,
}

/// The render-side snapshot of every camera's toggle for one frame:
/// transient, rebuilt every frame, read-only for the render side.
pub struct ToggleSnapshot {
    pub entries: Vec<ExtractedCamera>,
}

impl ToggleSnapshot {
    /// Well-formedness: each camera entity carries exactly one toggle.
    pub open spec fn wf(self) -> bool {
        forall|i: int, j: int|
            0 <= i < j < self.entries@.len() ==> self.entries@[i].entity
                != self.entries@[j].entity
    }

    /// Whether the snapshot holds a toggle for `entity`.
    pub open spec fn has_entity(self, entity: u64) -> bool {
        exists|i: int| 0 <= i < self.entries@.len() && self.entries@[i].entity == entity
    }

    /// The index of `entity`'s record (meaningful only when `has_entity`).
    pub open spec fn index_of(self, entity: u64) -> int {
        choose|i: int| 0 <= i < self.entries@.len() && self.entries@[i].entity == entity
    }

    /// The toggle the snapshot holds for `entity`, if any.
    pub open spec fn spec_toggle(self, entity: u64) -> Option<FXAA> {
        if self.has_entity(entity) {
            Some(self.entries@[self.index_of(entity)].fxaa)
        } else {
            None
        }
    }

    /// In a well-formed snapshot the record for an entity is unique.
    pub proof fn lemma_index_of(self, entity: u64, i: int)
        requires
            self.wf(),
            0 <= i < self.entries@.len(),
            self.entries@[i].entity == entity,
        ensures
            self.has_entity(entity),
            self.index_of(entity) == i,
    {
        assert(self.has_entity(entity));
        let k = self.index_of(entity);
        if k < i {
            assert(self.entries@[k].entity != self.entries@[i].entity);
        } else if i < k {
            assert(self.entries@[i].entity != self.entries@[k].entity);
        }
    }

    /// Look up the camera's toggle in this frame's snapshot.
    pub fn lookup(&self, entity: u64) -> (r: Option<FXAA>)
        requires
            self.wf(),
        ensures
            r == self.spec_toggle(entity),
    {
        let n = self.entries.len();
        let mut i: usize = 0;
        while i < n
            invariant
                self.wf(),
                n == self.entries@.len(),
                i <= n,
                forall|j: int| 0 <= j < i ==> self.entries@[j].entity != entity,
            decreases n - i,
        {
            if self.entries[i].entity == entity {
                proof {
                    self.lemma_index_of(entity, i as int);
                }
                return Some(self.entries[i].fxaa);
            }
            i += 1;
        }
        None
    }
}

/// The extraction barrier: copy every camera's toggle out of the
/// fully-settled primary world into this frame's render-side snapshot.
/// The snapshot is an exact, untorn copy, taken by value.
pub fn extract_toggles(cameras: &Vec<ExtractedCamera>) -> (r: ToggleSnapshot)
    requires
        forall|i: int, j: int|
            0 <= i < j < cameras@.len() ==> cameras@[i].entity != cameras@[j].entity,
    ensures
        r.wf(),
        r.entries@ == cameras@,
{
    let n = cameras.len();
    let mut entries: Vec<ExtractedCamera> = Vec::new();
    let mut i: usize = 0;
    while i < n
        invariant
            n == cameras@.len(),
            i <= n,
            entries@ == cameras@.subrange(0, i as int),
        decreases n - i,
    {
        entries.push(ExtractedCamera::extract(&cameras[i]));
        proof {
            assert(entries@ =~= cameras@.subrange(0, i as int + 1));
        }
        i += 1;
    }
    proof {
        assert(cameras@.subrange(0, n as int) =~= cameras@);
    }
    ToggleSnapshot { entries }
}

impl ExtractedCamera {
    /// Copies one camera record during extraction.
    pub fn extract(item: &ExtractedCamera) -> (r: ExtractedCamera)
        ensures
            r == *item,
    {
        ExtractedCamera { entity: item.entity, fxaa: FXAA::extract_component(&item.fxaa) }
    }
}

/// The binding slots every FXAA pass reads: the upstream color texture at
/// binding 0 and a filtering sampler at binding 1, both fragment-visible.
pub open spec fn spec_fxaa_layout_entries() -> Seq<BindGroupLayoutEntry> {
    seq![
        BindGroupLayoutEntry {
            binding: 0,
            visibility: ShaderStages { vertex: false, fragment: true },
            ty: BindingType::Texture {
                sample_type: TextureSampleType::Float { filterable: true },
                view_dimension: TextureViewDimension::D2,
                multisampled: false,
            },
        },
        BindGroupLayoutEntry {
            binding: 1,
            visibility: ShaderStages { vertex: false, fragment: true },
            ty: BindingType::Sampler(SamplerBindingType::Filtering),
        },
    ]
}

/// The fields shared by the effect descriptor and the blit descriptor: the
/// FXAA bind-group layout, the full-screen vertex stage, one canonical-format
/// color output with no blending and every channel written, default
/// primitives, no depth/stencil test, single-sample.
pub open spec fn is_fxaa_shaped_descriptor(d: RenderPipelineDescriptor) -> bool {
    &&& d.layout.entries@ == spec_fxaa_layout_entries()
    &&& is_fullscreen_vertex_state(d.vertex)
    &&& d.fragment.entry_point@ == "fs_main"@
    &&& d.fragment.target == (ColorTargetState {
        format: canonical_format(),
        blend: false,
        write_mask: COLOR_WRITES_ALL,
    })
    &&& d.primitive == PrimitiveTopology::TriangleList
    &&& d.depth_stencil == false
    &&& d.multisample_count == 1
}

/// The descriptor of the anti-aliasing pipeline.
pub open spec fn is_effect_descriptor(d: RenderPipelineDescriptor) -> bool {
    &&& is_fxaa_shaped_descriptor(d)
    &&& d.fragment.shader == (ShaderHandle { id: FXAA_SHADER_ID })
}

/// The descriptor of the passthrough (blit) pipeline.
pub open spec fn is_blit_descriptor(d: RenderPipelineDescriptor) -> bool {
    &&& is_fxaa_shaped_descriptor(d)
    &&& d.fragment.shader == (ShaderHandle { id: BLIT_SHADER_ID })
}

/// The effect descriptor and the blit descriptor agree on every
/// match-relevant field except the fragment shader handle, so the cache
/// never collapses them.
pub proof fn lemma_descriptors_differ_only_in_fragment_shader(
    a: RenderPipelineDescriptor,
    b: RenderPipelineDescriptor,
)
    requires
        is_effect_descriptor(a),
        is_blit_descriptor(b),
    ensures
        a.layout.entries@ == b.layout.entries@,
        a.vertex.shader == b.vertex.shader,
        a.vertex.entry_point@ == b.vertex.entry_point@,
        a.fragment.entry_point@ == b.fragment.entry_point@,
        a.fragment.target == b.fragment.target,
        a.primitive == b.primitive,
        a.depth_stencil == b.depth_stencil,
        a.multisample_count == b.multisample_count,
        a.fragment.shader != b.fragment.shader,
        !desc_matches(a, b),
{
}

/// The process-wide singleton resource of the effect: the shared bind-group
/// layout and the two pipeline handles. Created once at render-subsystem
/// startup, immutable thereafter, shared read-only by every frame.
pub struct FXAAPipeline {
    pub hdr_texture_bind_group: BindGroupLayoutDescriptor,
    pub fxaa_pipeline_id: PipelineHandle,
    pub blit_pipeline_id: PipelineHandle,
}

impl FXAAPipeline {
    /// The resource is consistent with `cache`: both handles are valid and
    /// name slots holding the effect and blit descriptors.
    pub open spec fn valid_for(self, cache: PipelineCache) -> bool {
        &&& cache.valid_handle(self.fxaa_pipeline_id)
        &&& cache.valid_handle(self.blit_pipeline_id)
        &&& is_effect_descriptor(cache.descriptors@[self.fxaa_pipeline_id.index as int])
        &&& is_blit_descriptor(cache.descriptors@[self.blit_pipeline_id.index as int])
        &&& self.fxaa_pipeline_id != self.blit_pipeline_id
    }

    /// Build the resource: construct the shared layout in-line, build the
    /// two descriptors that differ only in fragment shader handle, submit
    /// both to the cache, and store the returned handles.
    pub fn new(cache: &mut PipelineCache) -> (r: FXAAPipeline)
        requires
            old(cache).wf(),
        ensures
            final(cache).wf(),
            r.valid_for(*final(cache)),
            r.hdr_texture_bind_group.entries@ == spec_fxaa_layout_entries(),
            final(cache).descriptors@.len() <= old(cache).descriptors@.len() + 2,
            forall|i: int|
                0 <= i < old(cache).descriptors@.len() ==> final(cache).descriptors@[i]
                    == old(cache).descriptors@[i],
            forall|i: int|
                0 <= i < old(cache).states@.len() ==> final(cache).states@[i]
                    == old(cache).states@[i],
            forall|i: int|
                old(cache).descriptors@.len() <= i < final(cache).descriptors@.len()
                    ==> final(cache).states@[i] == PipelineState::Queued,
    {
        let fxaa_texture_bind_group = build_fxaa_layout();
        let blit_layout = build_fxaa_layout();

        let fxaa_descriptor = RenderPipelineDescriptor {
            label: "fxaa pipeline".to_owned(),
            layout: fxaa_texture_bind_group,
            vertex: fullscreen_shader_vertex_state(),
            fragment: FragmentState {
                shader: ShaderHandle { id: FXAA_SHADER_ID },
                entry_point: "fs_main".to_owned(),
                target: ColorTargetState {
                    format: swap_chain_format(),
                    blend: false,
                    write_mask: COLOR_WRITES_ALL,
                },
            },
            primitive: PrimitiveTopology::TriangleList,
            depth_stencil: false,
            multisample_count: 1,
        };

        let blit_descriptor = RenderPipelineDescriptor {
            label: "blit pipeline".to_owned(),
            layout: blit_layout,
            vertex: fullscreen_shader_vertex_state(),
            fragment: FragmentState {
                shader: ShaderHandle { id: BLIT_SHADER_ID },
                entry_point: "fs_main".to_owned(),
                target: ColorTargetState {
                    format: swap_chain_format(),
                    blend: false,
                    write_mask: COLOR_WRITES_ALL,
                },
            },
            primitive: PrimitiveTopology::TriangleList,
            depth_stencil: false,
            multisample_count: 1,
        };

        let fxaa_pipeline_id = cache.submit(fxaa_descriptor);
        let blit_pipeline_id = cache.submit(blit_descriptor);
        proof {
            assert(is_effect_descriptor(cache.descriptors@[fxaa_pipeline_id.index as int]));
            assert(is_blit_descriptor(cache.descriptors@[blit_pipeline_id.index as int]));
            if fxaa_pipeline_id == blit_pipeline_id {
                lemma_descriptors_differ_only_in_fragment_shader(
                    cache.descriptors@[fxaa_pipeline_id.index as int],
                    cache.descriptors@[blit_pipeline_id.index as int],
                );
            }
        }
        FXAAPipeline {
            hdr_texture_bind_group: build_fxaa_layout(),
            fxaa_pipeline_id,
            blit_pipeline_id,
        }
    }
}

/// Builds the FXAA bind-group layout: sampled texture + filtering sampler.
pub fn build_fxaa_layout() -> (r: BindGroupLayoutDescriptor)
    ensures
        r.entries@ == spec_fxaa_layout_entries(),
        r.label@ == "fxaa_texture_bind_group_layout"@,
{
    let mut entries: Vec<BindGroupLayoutEntry> = Vec::new();
    entries.push(
        BindGroupLayoutEntry {
            binding: 0,
            visibility: ShaderStages { vertex: false, fragment: true },
            ty: BindingType::Texture {
                sample_type: TextureSampleType::Float { filterable: true },
                view_dimension: TextureViewDimension::D2,
                multisampled: false,
            },
        },
    );
    entries.push(
        BindGroupLayoutEntry {
            binding: 1,
            visibility: ShaderStages { vertex: false, fragment: true },
            ty: BindingType::Sampler(SamplerBindingType::Filtering),
        },
    );
    proof {
        assert(entries@ =~= spec_fxaa_layout_entries());
    }
    BindGroupLayoutDescriptor { label: "fxaa_texture_bind_group_layout".to_owned(), entries }
}

/// Installs the effect: registers the three shader source blocks under their
/// stable identifiers and builds the pipeline resource.
pub struct FXAAPlugin;

impl FXAAPlugin {
    /// Plugin installation. Registration is idempotent per identifier;
    /// re-registering an identifier with different source text is the one
    /// condition that fails loudly at startup, and then neither pipeline is
    /// submitted.
    pub fn build(
        &self,
        registry: &mut ShaderRegistry,
        cache: &mut PipelineCache,
        fxaa_source: String,
        shared_source: String,
        blit_source: String,
    ) -> (r: Result<FXAAPipeline, RegistryError>)
        requires
            old(registry).wf(),
            old(cache).wf(),
        ensures
            final(registry).wf(),
            final(cache).wf(),
            r is Ok <==> ((old(registry).spec_source(FXAA_SHADER_ID) is None || old(
                registry,
            ).spec_source(FXAA_SHADER_ID) == Some(fxaa_source@)) && (old(registry).spec_source(
                FXAA_SHARED_SHADER_ID,
            ) is None || old(registry).spec_source(FXAA_SHARED_SHADER_ID) == Some(shared_source@))
                && (old(registry).spec_source(BLIT_SHADER_ID) is None || old(registry).spec_source(
                BLIT_SHADER_ID,
            ) == Some(blit_source@))),
            r matches Ok(p) ==> final(registry).spec_source(FXAA_SHADER_ID) == Some(fxaa_source@)
                && final(registry).spec_source(FXAA_SHARED_SHADER_ID) == Some(shared_source@)
                && final(registry).spec_source(BLIT_SHADER_ID) == Some(blit_source@)
                && p.valid_for(*final(cache))
                && p.hdr_texture_bind_group.entries@ == spec_fxaa_layout_entries(),
            r is Err ==> r == Err::<FXAAPipeline, RegistryError>(
                RegistryError::ConflictingRegistration,
            ) && *final(cache) == *old(cache),
            forall|other: u64|
                other != FXAA_SHADER_ID && other != FXAA_SHARED_SHADER_ID && other
                    != BLIT_SHADER_ID ==> final(registry).spec_source(other) == old(
                    registry,
                ).spec_source(other),
            forall|i: int|
                0 <= i < old(cache).descriptors@.len() ==> final(cache).descriptors@[i]
                    == old(cache).descriptors@[i],
            forall|i: int|
                0 <= i < old(cache).states@.len() ==> final(cache).states@[i]
                    == old(cache).states@[i],
            forall|i: int|
                old(cache).descriptors@.len() <= i < final(cache).descriptors@.len()
                    ==> final(cache).states@[i] == PipelineState::Queued,
    {
        match registry.register(FXAA_SHADER_ID, fxaa_source) {
            Ok(_) => (),
            Err(e) => {
                return Err(e);
            },
        }
        match registry.register(FXAA_SHARED_SHADER_ID, shared_source) {
            Ok(_) => (),
            Err(e) => {
                return Err(e);
            },
        }
        match registry.register(BLIT_SHADER_ID, blit_source) {
            Ok(_) => (),
            Err(e) => {
                return Err(e);
            },
        }
        Ok(FXAAPipeline::new(cache))
    }
}

} // verus!
