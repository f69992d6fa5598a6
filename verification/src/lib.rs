//! A verified model of a post-process render pass: a shader registry, a
//! deduplicating asynchronous pipeline cache, the effect's pipeline resource,
//! per-camera toggle extraction, and the render-graph node that samples the
//! previous pass's color output and writes the next pass's color target.

pub mod cache;
pub mod fullscreen_vertex_shader;
pub mod fxaa;
pub mod node;
pub mod render_resource;
pub mod shader;
