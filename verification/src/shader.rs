//! Shader-facing constants and the shader reload policy.
//!
//! The attribute slots and the frame-uniform capacity are a contract with
//! the vertex shader source the host compiles: `layout (location = N)`
//! there must match the slots here, and the shader's frame uniform array
//! holds `FRAME_UNIFORM_MAX` two-component vectors, four per frame.

use vstd::prelude::*;

verus! {

/// Attribute slot of the per-vertex corner position.
pub const ATTR_VERTEX_POS: u32 = 0;

/// Attribute slot of the per-instance sprite position.
pub const ATTR_POSITION: u32 = 1;

/// Attribute slot of the per-instance frame index.
pub const ATTR_FRAME: u32 = 2;

/// Attribute slot of the per-instance flip flag.
pub const ATTR_FLIPPED: u32 = 3;

/// Capacity of the shader's frame-corner uniform array, in two-component
/// vectors.
pub const FRAME_UNIFORM_MAX: usize = 256;

/// Whether a texture's frames fit the shader's frame uniform: four corner
/// vectors per frame, strictly under the array's capacity.
pub fn frames_fit_uniform(frame_count: usize) -> (ok: bool)
    ensures
        ok <==> 4 * frame_count < FRAME_UNIFORM_MAX,
{
    frame_count < FRAME_UNIFORM_MAX / 4
}

/// What to do after trying to build a shader program.
#[derive(Clone, Copy, Debug, PartialEq, Eq, Structural)]
pub enum ShaderOutcome {
    /// The new program linked: use it and delete the previous one.
    UseNew,
    /// Linking failed during a hot reload: report it and keep the
    /// previous working program bound; gameplay continues.
    KeepPrevious,
    /// Linking failed with no working program to fall back on: a fatal
    /// error on the very first load.
    Fatal,
}

/// The reload policy of the shader pipeline: a successful build is always
/// taken; a failed build is survivable exactly when an earlier working
/// program exists to stay bound.
pub fn shader_reload_outcome(compile_ok: bool, has_working_program: bool) -> (r: ShaderOutcome)
    ensures
        r == (if compile_ok {
            ShaderOutcome::UseNew
        } else if has_working_program {
            ShaderOutcome::KeepPrevious
        } else {
            ShaderOutcome::Fatal
        }),
{
    if compile_ok {
        ShaderOutcome::UseNew
    } else if has_working_program {
        ShaderOutcome::KeepPrevious
    } else {
        ShaderOutcome::Fatal
    }
}

} // verus!
