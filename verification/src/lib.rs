//! Helpers for working with a handle-based 3D graphics pipeline (GL 3.1 core
//! profile, shading language 140).
//!
//! The library wraps raw numeric resource handles (shaders, programs, vertex
//! buffers, vertex array objects) in owned objects and surfaces the API's
//! two-call compile/link error-reporting protocol as a typed result.
//!
//! All operations go through an explicit [`device::Device`]: an in-memory
//! model of one graphics context.  The model makes the API's implicit,
//! context-wide binding state and its handle lifecycle visible, so that the
//! resource-lifecycle discipline (every handle released exactly once, no
//! release of a foreign handle, no leak on a failed compile or link) and the
//! status/log retrieval protocol are stated in contracts and machine-checked.
//!
//! Note: the various `activate` methods explicitly bind the object, but other
//! methods frequently bind as a side effect too (their contracts say so).
//! Nothing restores a previous binding.

pub mod buffer;
pub mod device;
pub mod glenum;
pub mod program;
pub mod shader;
pub mod status_log;
pub mod vertex_array;

pub use buffer::Vbo;
pub use buffer::VboUsage;
pub use device::Device;
pub use program::Program;
pub use shader::Shader;
pub use shader::ShaderType;
pub use vertex_array::Primitive;
pub use vertex_array::Vao;
