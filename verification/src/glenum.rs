//! Numeric constants of the underlying graphics API.
//!
//! These are the stable `GLenum` values of the GL 3.1 core profile for the
//! small closed set of features the library touches.

use vstd::prelude::*;

verus! {

/// Shader stage: vertex.
pub const VERTEX_SHADER: u32 = 0x8B31;

/// Shader stage: fragment.
pub const FRAGMENT_SHADER: u32 = 0x8B30;

/// Integer parameter selector: compile status of a shader object.
pub const COMPILE_STATUS: u32 = 0x8B81;

/// Integer parameter selector: link status of a program object.
pub const LINK_STATUS: u32 = 0x8B82;

/// Integer parameter selector: length of the information log, counting the
/// trailing terminator byte (0 when there is no log at all).
pub const INFO_LOG_LENGTH: u32 = 0x8B84;

/// The integer value a status query reports on success.
pub const STATUS_TRUE: i32 = 1;

/// Buffer usage hint: updated once, drawn many times.
pub const STATIC_DRAW: u32 = 0x88E4;

/// Buffer usage hint: updated many times, drawn many times.
pub const DYNAMIC_DRAW: u32 = 0x88E8;

/// Buffer usage hint: updated once, drawn once.
pub const STREAM_DRAW: u32 = 0x88E0;

/// Binding target for vertex attribute data buffers.
pub const ARRAY_BUFFER: u32 = 0x8892;

/// Element type of vertex attribute components (single-precision float).
pub const FLOAT: u32 = 0x1406;

/// Primitive topology: points.
pub const POINTS: u32 = 0x0000;

/// Primitive topology: lines.
pub const LINES: u32 = 0x0001;

/// Primitive topology: line loop.
pub const LINE_LOOP: u32 = 0x0002;

/// Primitive topology: line strip.
pub const LINE_STRIP: u32 = 0x0003;

/// Primitive topology: triangles.
pub const TRIANGLES: u32 = 0x0004;

/// Primitive topology: triangle strip.
pub const TRIANGLE_STRIP: u32 = 0x0005;

/// Primitive topology: triangle fan.
pub const TRIANGLE_FAN: u32 = 0x0006;

} // verus!
