//! A registry for GPU shader programs and render targets: collision-free
//! identifiers, shader records keyed by them, the binding declarations that
//! precede a shader's body, and the shader bound for upcoming draws.
//!
//! What would otherwise be process-wide state (the id counters and the
//! current binding) is held in explicit values, [`IdAllocator`] and
//! [`CurrentShader`], that callers own and share as they see fit (behind a
//! lock where several threads use them).
pub mod current;
pub mod ids;
pub mod registry;
pub mod text;
pub mod uniforms;

pub use current::{
    get_current_shader, set_default_shader, set_shader, set_uniform, CurrentShader,
    ShaderInstance,
};
pub use ids::{gen_render_target, gen_shader_id, IdAllocator, RenderTargetId, ShaderId};
pub use registry::{create_shader, uniform_declarations, Shader, ShaderError, ShaderMap};
pub use uniforms::{NamedMap, Uniform, UniformDef, UniformDefs, UniformDesc, Uniforms};
