//! The render-graph node of the effect: once per frame and per camera it
//! reads the camera's toggle snapshot and the cache's compiled state, and
//! either issues one full-screen draw or skips.
//!
//! The node never blocks and never panics: a missing toggle, a disabled
//! toggle with an unresolved blit pipeline, or an unresolved or failed
//! required pipeline all end the frame in `Skipped`. When the toggle is
//! disabled the node still runs the blit pipeline, with the same bind group,
//! so downstream passes never special-case "effect was off". The target is
//! never cleared (load-preserve) and every draw covers every pixel, so the
//! downstream attachment always has defined content after the node runs.

use vstd::prelude::*;

use crate::cache::CompiledPipeline;
use crate::cache::PipelineCache;
use crate::cache::PipelineHandle;
use crate::cache::PipelineResolution;
use crate::fxaa::FXAA;
use crate::fxaa::FXAAPipeline;
use crate::render_resource::SamplerBindingType;
use crate::render_resource::COLOR_WRITES_ALL;

verus! {

/// Per-frame, per-camera outcome of the node.
#[derive(Clone, Copy, PartialEq, Eq, Structural, Debug)]
pub enum NodeState {
    /// No toggle, toggle disabled with no resolved blit, or required
    /// pipeline unresolved or failed: nothing drawn this frame.
    Skipped,
    /// The draw was issued.
    Complete,
}

/// How the render pass treats the target's prior contents.
#[derive(Clone, Copy, PartialEq, Eq, Structural, Debug)]
pub enum LoadOp {
    /// Keep prior contents; the full-screen draw overwrites every pixel, so
    /// clearing would be wasted work.
    Preserve,
    /// Clear before drawing. The node never uses this.
    Clear,
}

/// The one bind group of the pass: the upstream color texture view and a
/// filtering sampler, matched to the effect's shared layout, identical
/// whichever pipeline executes.
#[derive(Clone, Copy, PartialEq, Eq, Structural, Debug)]
pub struct BindGroup {
    pub texture_view: u64,
    pub sampler: SamplerBindingType,
}

/// Everything the one draw submits to the GPU queue.
#[derive(Clone, Copy, PartialEq, Eq, Structural, Debug)]
pub struct DrawParameters {
    /// The compiled pipeline bound for the draw.
    pub pipeline: CompiledPipeline,
    /// The single bind group.
    pub bind_group: BindGroup,
    /// The downstream color attachment written.
    pub target: u64,
    /// Load behaviour of the attachment.
    pub load: LoadOp,
    /// Channels written by the draw.
    pub write_mask: u32,
    /// One full-screen triangle, positions generated procedurally.
    pub vertex_count: u32,
    /// The pass binds no vertex buffer.
    pub uses_vertex_buffer: bool,
}

/// The node's outcome for one camera and one frame.
#[derive(Clone, Copy, PartialEq, Debug)]
pub struct NodeRun {
    pub state: NodeState,
    pub draw: Option<DrawParameters>,
}

/// The handle the active branch needs: the effect pipeline when the toggle
/// is enabled, the blit pipeline when it is disabled.
pub open spec fn required_handle(toggle: FXAA, pipeline: FXAAPipeline) -> PipelineHandle {
    if toggle.is_enabled {
        pipeline.fxaa_pipeline_id
    } else {
        pipeline.blit_pipeline_id
    }
}

/// The draw the node issues when the required pipeline resolved to `c`.
pub open spec fn spec_draw(c: CompiledPipeline, source_view: u64, destination_view: u64) -> DrawParameters {
    DrawParameters {
        pipeline: c,
        bind_group: BindGroup {
            texture_view: source_view,
            sampler: SamplerBindingType::Filtering,
        },
        target: destination_view,
        load: LoadOp::Preserve,
        write_mask: COLOR_WRITES_ALL,
        vertex_count: 3,
        uses_vertex_buffer: false,
    }
}

/// The node's whole behaviour as a function of the frame snapshot: the
/// camera's toggle, the cache's compiled state, the effect's resource, and
/// the two texture views the graph hands in.
pub open spec fn node_spec(
    toggle: Option<FXAA>,
    cache: PipelineCache,
    pipeline: FXAAPipeline,
    source_view: u64,
    destination_view: u64,
) -> NodeRun {
    match toggle {
        Option::None => NodeRun { state: NodeState::Skipped, draw: Option::None },
        Option::Some(t) => match cache.resolution_of(required_handle(t, pipeline)) {
            PipelineResolution::Ready(c) => NodeRun {
                state: NodeState::Complete,
                draw: Option::Some(spec_draw(c, source_view, destination_view)),
            },
            _ => NodeRun { state: NodeState::Skipped, draw: Option::None },
        },
    }
}

/// The execution unit of the effect in the frame graph.
pub struct FXAANode;

impl FXAANode {
    /// Run the node for one camera: look up the toggle snapshot, resolve the
    /// required pipeline without blocking, and either issue the one
    /// full-screen draw or skip this frame.
    pub fn run(
        &self,
        toggle: Option<FXAA>,
        cache: &PipelineCache,
        pipeline: &FXAAPipeline,
        source_view: u64,
        destination_view: u64,
    ) -> (r: NodeRun)
        requires
            cache.wf(),
            cache.valid_handle(pipeline.fxaa_pipeline_id),
            cache.valid_handle(pipeline.blit_pipeline_id),
        ensures
            r == node_spec(toggle, *cache, *pipeline, source_view, destination_view),
    {
        match toggle {
            Option::None => NodeRun { state: NodeState::Skipped, draw: Option::None },
            Option::Some(t) => {
                let required = if t.is_enabled {
                    pipeline.fxaa_pipeline_id
                } else {
                    pipeline.blit_pipeline_id
                };
                match cache.try_resolve(required) {
                    PipelineResolution::Ready(c) => NodeRun {
                        state: NodeState::Complete,
                        draw: Option::Some(
                            DrawParameters {
                                pipeline: c,
                                bind_group: BindGroup {
                                    texture_view: source_view,
                                    sampler: SamplerBindingType::Filtering,
                                },
                                target: destination_view,
                                load: LoadOp::Preserve,
                                write_mask: COLOR_WRITES_ALL,
                                vertex_count: 3,
                                uses_vertex_buffer: false,
                            },
                        ),
                    },
                    _ => NodeRun { state: NodeState::Skipped, draw: Option::None },
                }
            },
        }
    }
}

/// Running the node twice on the same frame snapshot (same toggle value,
/// same resolved pipelines, same views) produces bit-identical draw
/// parameters both times.
pub proof fn lemma_node_idempotent(
    toggle: Option<FXAA>,
    cache: PipelineCache,
    pipeline: FXAAPipeline,
    source_view: u64,
    destination_view: u64,
    r1: NodeRun,
    r2: NodeRun,
)
    requires
        r1 == node_spec(toggle, cache, pipeline, source_view, destination_view),
        r2 == node_spec(toggle, cache, pipeline, source_view, destination_view),
    ensures
        r1 == r2,
{
}

/// A camera with no toggle component transitions straight to `Skipped`:
/// a valid "feature absent" state, not an error.
pub proof fn lemma_missing_toggle_skips(
    cache: PipelineCache,
    pipeline: FXAAPipeline,
    source_view: u64,
    destination_view: u64,
)
    ensures
        node_spec(Option::None, cache, pipeline, source_view, destination_view) == (NodeRun {
            state: NodeState::Skipped,
            draw: Option::None,
        }),
{
}

/// The downstream attachment has defined content after the node runs,
/// whatever the toggle state: the node never clears the target, and when it
/// draws, the draw is one full-screen triangle writing every channel of
/// every pixel; when it skips, load-preserve keeps the upstream content.
pub proof fn lemma_attachment_content_defined(
    toggle: Option<FXAA>,
    cache: PipelineCache,
    pipeline: FXAAPipeline,
    source_view: u64,
    destination_view: u64,
)
    ensures
        ({
            let r = node_spec(toggle, cache, pipeline, source_view, destination_view);
            &&& r.draw matches Option::Some(d) ==> d.load == LoadOp::Preserve && d.vertex_count
                == 3 && d.write_mask == COLOR_WRITES_ALL && d.target == destination_view
            &&& r.draw is None ==> r.state == NodeState::Skipped
            &&& r.draw is Some <==> r.state == NodeState::Complete
        }),
{
}

/// A pipeline whose compilation failed makes the node skip, forever after:
/// whenever the required handle of the active branch resolves to `Failed`,
/// the node draws nothing — never a crash loop.
pub proof fn lemma_failed_pipeline_skips(
    toggle: FXAA,
    cache: PipelineCache,
    pipeline: FXAAPipeline,
    source_view: u64,
    destination_view: u64,
)
    requires
        !(cache.resolution_of(required_handle(toggle, pipeline)) is Ready),
    ensures
        node_spec(Option::Some(toggle), cache, pipeline, source_view, destination_view) == (
        NodeRun { state: NodeState::Skipped, draw: Option::None }),
{
}

} // verus!
