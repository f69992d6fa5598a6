//! The shared full-screen vertex stage every post-process pipeline uses: one
//! large triangle generated procedurally by the vertex shader, no vertex
//! buffer.

use vstd::prelude::*;

use crate::render_resource::VertexState;
use crate::shader::ShaderHandle;

verus! {

/// Stable identifier of the full-screen vertex shader source.
pub const FULLSCREEN_SHADER_ID: u64 = 7837534426033940724;

/// Whether `v` is the shared full-screen vertex stage.
pub open spec fn is_fullscreen_vertex_state(v: VertexState) -> bool {
    &&& v.shader == (ShaderHandle { id: FULLSCREEN_SHADER_ID })
    &&& v.entry_point@ == "fullscreen_vertex_shader"@
}

/// Builds the vertex stage shared by every full-screen pass.
pub fn fullscreen_shader_vertex_state() -> (r: VertexState)
    ensures
        is_fullscreen_vertex_state(r),
{
    VertexState {
        shader: ShaderHandle { id: FULLSCREEN_SHADER_ID },
        entry_point: "fullscreen_vertex_shader".to_owned(),
    }
}

} // verus!
