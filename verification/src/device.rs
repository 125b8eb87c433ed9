//! An explicit model of one graphics context.
//!
//! The real graphics API hides its state behind a context that is mutated
//! through global binding calls and queried through integer handles.
//! [`Device`] makes that state explicit: it records every object ever
//! created, whether it is still live, the current bindings, and the issued
//! draw calls.  The owning wrappers ([`crate::Shader`], [`crate::Program`],
//! [`crate::Vbo`], [`crate::Vao`]) are verified against this model, so the
//! lifecycle discipline — a handle is created before use, released exactly
//! once, and never touched after release — is machine-checked rather than
//! left to convention.
//!
//! Object names are positive integers and are never reused; name 0 always
//! means "nothing bound".  Shader and program objects share one name space,
//! as they do in the underlying API: shaders take the odd names, programs
//! the even ones, so a shader handle never collides with a program handle.
//! Buffer and vertex array objects each have a name space of their own,
//! dense from 1.
//!
//! Whether a compile or link succeeds, and what diagnostic log it
//! produces, is the driver's decision:
//! the model takes that decision from configurable fields
//! ([`Device::set_compile_result`], [`Device::set_link_result`]), which lets
//! tests drive every branch of the status/log protocol without graphics
//! hardware.  Diagnostic logs are held to well-formed text in the expected
//! encoding as part of the model's invariant: malformed driver output is a
//! fatal integrity error, not a condition the library recovers from.

use crate::glenum::COMPILE_STATUS;
use crate::glenum::FLOAT;
use crate::glenum::INFO_LOG_LENGTH;
use crate::glenum::LINK_STATUS;
use crate::glenum::STATUS_TRUE;
use crate::status_log::log_length_report;
use crate::status_log::log_prefix;
use crate::status_log::StatusLogSource;
use vstd::prelude::*;
use vstd::utf8::valid_utf8;

verus! {

/// Longest diagnostic log the model accepts; one less than the largest value
/// the API's 32-bit signed length report can carry, leaving room for the
/// trailing terminator.
pub const MAX_LOG_LEN: usize = 0x7FFF_FFFE;

/// Most buffer or vertex array objects a context can hand out: every name
/// must fit in the API's 32-bit unsigned handle type, with 0 reserved for
/// "nothing".
pub const MAX_OBJECTS: usize = 0xFFFF_FFFE;

/// Most shader objects — and likewise most program objects — a context can
/// hand out.  Shaders and programs draw their names from one shared name
/// space, so each kind gets at most half of the 32-bit handles.
pub const MAX_SHARED_OBJECTS: usize = 0x7FFF_FFFE;

/// Largest attribute location the model accepts: a location must survive the
/// API's signed 32-bit location query, whose value -1 means "not found".
pub const MAX_ATTRIB_LOCATION: u32 = 0x7FFF_FFFE;

/// One shader object: its stage, the last submitted source text, and the
/// outcome of the last compile.
pub struct ShaderSlot {
    /// False once the object has been released.
    pub live: bool,
    /// The stage constant the object was created for.
    pub stage: u32,
    /// The last source text submitted for this object.
    pub source: String,
    /// Whether the last compile succeeded.
    pub compiled_ok: bool,
    /// The diagnostic log of the last compile (terminator excluded).
    pub log: Vec<u8>,
}

/// One resolved vertex attribute of a linked program: a variable name and
/// the location the linker assigned to it.
pub struct AttribSlot {
    /// The attribute variable's name in the shading language.
    pub name: String,
    /// The location assigned by the linker.
    pub location: u32,
}

/// One requested fragment output binding: an output variable name and the
/// color slot it was bound to.
pub struct FragBindSlot {
    /// The color slot number.
    pub color: u32,
    /// The fragment output variable's name.
    pub name: String,
}

/// One program object: the shaders attached to it, the outcome of the last
/// link, and its interface bindings.
pub struct ProgramSlot {
    /// False once the object has been released.
    pub live: bool,
    /// Names of the shader objects attached, in attachment order.
    pub attached: Vec<u32>,
    /// Whether the last link succeeded.
    pub linked_ok: bool,
    /// The diagnostic log of the last link (terminator excluded).
    pub log: Vec<u8>,
    /// Fragment output bindings requested on this program, in request order.
    pub frag_binds: Vec<FragBindSlot>,
    /// Vertex attributes the linker resolved, in registration order.
    pub attribs: Vec<AttribSlot>,
}

/// One buffer object: its store is sized by one upload call.
pub struct BufferSlot {
    /// False once the object has been released.
    pub live: bool,
    /// Size in bytes of the uploaded store.
    pub size: usize,
    /// The usage hint the store was created with.
    pub usage: u32,
}

/// One recorded vertex attribute array configuration of a vertex array
/// object.
pub struct AttribPointerSlot {
    /// The attribute location being described.
    pub index: u32,
    /// Components per vertex (1 to 4).
    pub components: i32,
    /// The numeric constant of the component element type.
    pub element_type: u32,
    /// Whether fixed-point values are normalized when fetched.
    pub normalized: bool,
    /// Byte stride between consecutive vertices.
    pub stride: i32,
    /// Byte offset of the first component inside the bound buffer.
    pub offset: usize,
    /// The array buffer that was bound when the layout was described.
    pub buffer: u32,
}

/// One vertex array object: which attribute indices were enabled and which
/// layouts were described while it was bound.
pub struct ArraySlot {
    /// False once the object has been released.
    pub live: bool,
    /// Attribute locations enabled on this object, in call order.
    pub enabled: Vec<u32>,
    /// Attribute layouts described on this object, in call order.
    pub pointers: Vec<AttribPointerSlot>,
}

/// One issued draw call, with the bindings that were current when it was
/// issued.
pub struct DrawCallSlot {
    /// The primitive topology constant.
    pub mode: u32,
    /// Index of the first vertex.
    pub first: i32,
    /// Number of vertices.
    pub count: i32,
    /// The program that was bound (0 for none).
    pub program: u32,
    /// The vertex array object that was bound (0 for none).
    pub vertex_array: u32,
}

/// An in-memory model of one graphics context.
///
/// Each object name maps to a slot of its kind's vector: shader name `n`
/// (odd) denotes `shaders[(n - 1) / 2]`, program name `n` (even) denotes
/// `programs[(n - 2) / 2]`, and buffer or vertex array name `n` denotes slot
/// `n - 1`; 0 is never a valid name.  Slots of released objects stay in
/// place with `live == false`, so names are never reused and a release can
/// be counted: per name, the transition from live to released happens at
/// most once.
pub struct Device {
    /// Every shader object ever created.
    pub shaders: Vec<ShaderSlot>,
    /// Every program object ever created.
    pub programs: Vec<ProgramSlot>,
    /// Every buffer object ever created.
    pub buffers: Vec<BufferSlot>,
    /// Every vertex array object ever created.
    pub arrays: Vec<ArraySlot>,
    /// The program in use (0 for none).
    pub bound_program: u32,
    /// The buffer bound to the array-buffer target (0 for none).
    pub bound_array_buffer: u32,
    /// The vertex array object currently bound (0 for none).
    pub bound_vertex_array: u32,
    /// Every draw call issued, in order.
    pub draw_calls: Vec<DrawCallSlot>,
    /// Driver decision: whether the next compiles succeed.
    pub compile_ok: bool,
    /// Driver decision: the log the next compiles produce.
    pub compile_log: Vec<u8>,
    /// Driver decision: whether the next links succeed.
    pub link_ok: bool,
    /// Driver decision: the log the next links produce.
    pub link_log: Vec<u8>,
    /// Driver quirk: report an empty log's length as 1 (terminator only)
    /// instead of 0.
    pub empty_log_reports_one: bool,
}

impl Device {
    /// Name `name` was ever created as a shader object.  Shader names are
    /// the odd numbers, interleaved with the even program names in one
    /// shared name space.
    pub open spec fn shader_valid(self, name: u32) -> bool {
        1 <= name && name % 2 == 1 && (name - 1) / 2 < self.shaders@.len()
    }

    /// The slot of shader object `name`.
    pub open spec fn shader_at(self, name: u32) -> ShaderSlot
        recommends
            self.shader_valid(name),
    {
        self.shaders@[(name - 1) / 2]
    }

    /// Name `name` denotes a live (not yet released) shader object.
    pub open spec fn shader_live(self, name: u32) -> bool {
        self.shader_valid(name) && self.shader_at(name).live
    }

    /// Name `name` was ever created as a program object.  Program names are
    /// the even numbers, interleaved with the odd shader names in one shared
    /// name space.
    pub open spec fn program_valid(self, name: u32) -> bool {
        2 <= name && name % 2 == 0 && (name - 2) / 2 < self.programs@.len()
    }

    /// The slot of program object `name`.
    pub open spec fn program_at(self, name: u32) -> ProgramSlot
        recommends
            self.program_valid(name),
    {
        self.programs@[(name - 2) / 2]
    }

    /// Name `name` denotes a live (not yet released) program object.
    pub open spec fn program_live(self, name: u32) -> bool {
        self.program_valid(name) && self.program_at(name).live
    }

    /// Name `name` was ever created as a buffer object.
    pub open spec fn buffer_valid(self, name: u32) -> bool {
        1 <= name && name <= self.buffers@.len()
    }

    /// The slot of buffer object `name`.
    pub open spec fn buffer_at(self, name: u32) -> BufferSlot
        recommends
            self.buffer_valid(name),
    {
        self.buffers@[name - 1]
    }

    /// Name `name` denotes a live (not yet released) buffer object.
    pub open spec fn buffer_live(self, name: u32) -> bool {
        self.buffer_valid(name) && self.buffer_at(name).live
    }

    /// Name `name` was ever created as a vertex array object.
    pub open spec fn array_valid(self, name: u32) -> bool {
        1 <= name && name <= self.arrays@.len()
    }

    /// The slot of vertex array object `name`.
    pub open spec fn array_at(self, name: u32) -> ArraySlot
        recommends
            self.array_valid(name),
    {
        self.arrays@[name - 1]
    }

    /// Name `name` denotes a live (not yet released) vertex array object.
    pub open spec fn array_live(self, name: u32) -> bool {
        self.array_valid(name) && self.array_at(name).live
    }

    /// The model's well-formedness: room for fresh names, well-formed slots
    /// (log lengths the 32-bit length report can carry, logs that are valid
    /// text, attribute locations the signed location query can carry), a
    /// driver configuration of the same shape, and bindings that only ever
    /// name created objects.
    pub open spec fn wf(self) -> bool {
        &&& self.shaders@.len() <= MAX_SHARED_OBJECTS
        &&& self.programs@.len() <= MAX_SHARED_OBJECTS
        &&& self.buffers@.len() <= MAX_OBJECTS
        &&& self.arrays@.len() <= MAX_OBJECTS
        &&& forall|i: int|
            0 <= i < self.shaders@.len() ==> shader_slot_ok(#[trigger] self.shaders@[i])
        &&& forall|i: int|
            0 <= i < self.programs@.len() ==> program_slot_ok(#[trigger] self.programs@[i])
        &&& self.compile_log@.len() <= MAX_LOG_LEN
        &&& valid_utf8(self.compile_log@)
        &&& self.link_log@.len() <= MAX_LOG_LEN
        &&& valid_utf8(self.link_log@)
        &&& self.bound_program == 0 || self.program_valid(self.bound_program)
        &&& self.bound_array_buffer == 0 || self.buffer_valid(self.bound_array_buffer)
        &&& self.bound_vertex_array == 0 || self.array_valid(self.bound_vertex_array)
    }

    /// A fresh context: no objects, nothing bound, no draw calls issued;
    /// compiles and links succeed with an empty log until configured
    /// otherwise.
    pub fn new() -> (r: Device)
        ensures
            r.wf(),
            r.shaders@.len() == 0,
            r.programs@.len() == 0,
            r.buffers@.len() == 0,
            r.arrays@.len() == 0,
            r.bound_program == 0,
            r.bound_array_buffer == 0,
            r.bound_vertex_array == 0,
            r.draw_calls@.len() == 0,
            r.compile_ok,
            r.compile_log@.len() == 0,
            r.link_ok,
            r.link_log@.len() == 0,
            !r.empty_log_reports_one,
    {
        Device {
            shaders: Vec::new(),
            programs: Vec::new(),
            buffers: Vec::new(),
            arrays: Vec::new(),
            bound_program: 0,
            bound_array_buffer: 0,
            bound_vertex_array: 0,
            draw_calls: Vec::new(),
            compile_ok: true,
            compile_log: Vec::new(),
            link_ok: true,
            link_log: Vec::new(),
            empty_log_reports_one: false,
        }
    }

    /// Configure the driver decision applied by subsequent compiles.  The
    /// log must be well-formed text: the driver contract owes valid text in
    /// the expected encoding, and output violating that is a fatal
    /// integrity error, which the model excludes rather than propagates.
    pub fn set_compile_result(&mut self, ok: bool, log: Vec<u8>)
        requires
            old(self).wf(),
            log@.len() <= MAX_LOG_LEN,
            valid_utf8(log@),
        ensures
            final(self).wf(),
            *final(self) == (Device { compile_ok: ok, compile_log: log, ..*old(self) }),
    {
        self.compile_ok = ok;
        self.compile_log = log;
    }

    /// Configure the driver decision applied by subsequent links.  The log
    /// must be well-formed text, as for [`Device::set_compile_result`].
    pub fn set_link_result(&mut self, ok: bool, log: Vec<u8>)
        requires
            old(self).wf(),
            log@.len() <= MAX_LOG_LEN,
            valid_utf8(log@),
        ensures
            final(self).wf(),
            *final(self) == (Device { link_ok: ok, link_log: log, ..*old(self) }),
    {
        self.link_ok = ok;
        self.link_log = log;
    }

    /// Configure how the length of an empty log is reported: as 0 (no log)
    /// or as 1 (a terminator-only log).
    pub fn set_empty_log_report(&mut self, reports_one: bool)
        requires
            old(self).wf(),
        ensures
            final(self).wf(),
            *final(self) == (Device { empty_log_reports_one: reports_one, ..*old(self) }),
    {
        self.empty_log_reports_one = reports_one;
    }

    /// Create a fresh shader object for stage constant `stage`.  The name
    /// is the next unused odd number: fresh in the name space shaders share
    /// with programs.
    pub fn create_shader(&mut self, stage: u32) -> (name: u32)
        requires
            old(self).wf(),
            old(self).shaders@.len() < MAX_SHARED_OBJECTS,
        ensures
            final(self).wf(),
            name == 2 * old(self).shaders@.len() + 1,
            !old(self).shader_valid(name),
            !old(self).program_valid(name),
            !final(self).program_valid(name),
            final(self).shader_live(name),
            final(self).shader_at(name).stage == stage,
            !final(self).shader_at(name).compiled_ok,
            final(self).shader_at(name).source@ == Seq::<char>::empty(),
            final(self).shader_at(name).log@ == Seq::<u8>::empty(),
            final(self).shaders@.len() == old(self).shaders@.len() + 1,
            forall|i: int|
                0 <= i < old(self).shaders@.len() ==> final(self).shaders@[i] == old(self).shaders@[i],
            *final(self) == (Device { shaders: final(self).shaders, ..*old(self) }),
    {
        let name = (self.shaders.len() as u32) * 2 + 1;
        self.shaders.push(
            ShaderSlot {
                live: true,
                stage,
                source: String::new(),
                compiled_ok: false,
                log: Vec::new(),
            },
        );
        name
    }

    /// Submit `source` as the source text of shader object `shader`.
    pub fn shader_source(&mut self, shader: u32, source: &str)
        requires
            old(self).wf(),
            old(self).shader_live(shader),
        ensures
            final(self).wf(),
            final(self).shaders@ == old(self).shaders@.update(
                (shader - 1) / 2,
                (ShaderSlot {
                    source: final(self).shader_at(shader).source,
                    ..old(self).shader_at(shader)
                }),
            ),
            final(self).shader_at(shader).source@ == source@,
            *final(self) == (Device { shaders: final(self).shaders, ..*old(self) }),
    {
        let idx = ((shader - 1) / 2) as usize;
        let text = source.to_owned();
        let slot = &mut self.shaders[idx];
        slot.source = text;
    }

    /// Compile shader object `shader`: the configured driver decision
    /// becomes the object's status and log.
    pub fn compile_shader(&mut self, shader: u32)
        requires
            old(self).wf(),
            old(self).shader_live(shader),
        ensures
            final(self).wf(),
            final(self).shaders@ == old(self).shaders@.update(
                (shader - 1) / 2,
                (ShaderSlot {
                    compiled_ok: old(self).compile_ok,
                    log: final(self).shader_at(shader).log,
                    ..old(self).shader_at(shader)
                }),
            ),
            final(self).shader_at(shader).compiled_ok == old(self).compile_ok,
            final(self).shader_at(shader).log@ == old(self).compile_log@,
            *final(self) == (Device { shaders: final(self).shaders, ..*old(self) }),
    {
        let idx = ((shader - 1) / 2) as usize;
        let ok = self.compile_ok;
        let log = copy_bytes(&self.compile_log);
        let slot = &mut self.shaders[idx];
        slot.compiled_ok = ok;
        slot.log = log;
    }

    /// Query an integer parameter of shader object `shader`: its compile
    /// status or its reported log length.
    pub fn get_shader_iv(&self, shader: u32, pname: u32) -> (r: i32)
        requires
            self.wf(),
            self.shader_live(shader),
            pname == COMPILE_STATUS || pname == INFO_LOG_LENGTH,
        ensures
            pname == COMPILE_STATUS ==> ((r == STATUS_TRUE) <==> self.shader_at(
                shader,
            ).compiled_ok),
            pname == INFO_LOG_LENGTH ==> 0 <= r && log_length_report(
                self.shader_at(shader).log@,
                r as int,
            ),
    {
        let slot = &self.shaders[((shader - 1) / 2) as usize];
        if pname == COMPILE_STATUS {
            if slot.compiled_ok {
                STATUS_TRUE
            } else {
                0
            }
        } else {
            report_log_length(&slot.log, self.empty_log_reports_one)
        }
    }

    /// Copy the log of shader object `shader` into a fresh buffer of
    /// `bufsize` bytes (one byte is reserved for the terminator).
    pub fn get_shader_info_log(&self, shader: u32, bufsize: i32) -> (r: Vec<u8>)
        requires
            self.wf(),
            self.shader_live(shader),
            1 <= bufsize,
        ensures
            r@ == log_prefix(self.shader_at(shader).log@, bufsize as int),
    {
        let slot = &self.shaders[((shader - 1) / 2) as usize];
        copy_log_prefix(&slot.log, bufsize)
    }

    /// Release shader object `shader`.  Releasing requires a live object, so
    /// per name a release happens at most once.
    pub fn delete_shader(&mut self, shader: u32)
        requires
            old(self).wf(),
            old(self).shader_live(shader),
        ensures
            final(self).wf(),
            final(self).shaders@ == old(self).shaders@.update(
                (shader - 1) / 2,
                (ShaderSlot { live: false, ..old(self).shader_at(shader) }),
            ),
            !final(self).shader_live(shader),
            *final(self) == (Device { shaders: final(self).shaders, ..*old(self) }),
    {
        let idx = ((shader - 1) / 2) as usize;
        let slot = &mut self.shaders[idx];
        slot.live = false;
    }

    /// Whether `name` denotes a live shader object.
    pub fn is_shader(&self, name: u32) -> (r: bool)
        ensures
            r == self.shader_live(name),
    {
        name >= 1 && name % 2 == 1 && (((name - 1) / 2) as usize) < self.shaders.len()
            && self.shaders[((name - 1) / 2)
            as usize].live
    }
}

impl Device {
    /// Create a fresh, empty program object.  The name is the next unused
    /// even number: fresh in the name space programs share with shaders.
    pub fn create_program(&mut self) -> (name: u32)
        requires
            old(self).wf(),
            old(self).programs@.len() < MAX_SHARED_OBJECTS,
        ensures
            final(self).wf(),
            name == 2 * old(self).programs@.len() + 2,
            !old(self).program_valid(name),
            !old(self).shader_valid(name),
            !final(self).shader_valid(name),
            final(self).program_live(name),
            !final(self).program_at(name).linked_ok,
            final(self).program_at(name).attached@ == Seq::<u32>::empty(),
            final(self).program_at(name).log@ == Seq::<u8>::empty(),
            final(self).program_at(name).frag_binds@.len() == 0,
            final(self).program_at(name).attribs@.len() == 0,
            final(self).programs@.len() == old(self).programs@.len() + 1,
            forall|i: int|
                0 <= i < old(self).programs@.len() ==> final(self).programs@[i] == old(self).programs@[i],
            *final(self) == (Device { programs: final(self).programs, ..*old(self) }),
    {
        let name = (self.programs.len() as u32) * 2 + 2;
        self.programs.push(
            ProgramSlot {
                live: true,
                attached: Vec::new(),
                linked_ok: false,
                log: Vec::new(),
                frag_binds: Vec::new(),
                attribs: Vec::new(),
            },
        );
        name
    }

    /// Attach shader object `shader` to program object `program`.
    pub fn attach_shader(&mut self, program: u32, shader: u32)
        requires
            old(self).wf(),
            old(self).program_live(program),
            old(self).shader_live(shader),
        ensures
            final(self).wf(),
            final(self).programs@ == old(self).programs@.update(
                (program - 2) / 2,
                (ProgramSlot {
                    attached: final(self).program_at(program).attached,
                    ..old(self).program_at(program)
                }),
            ),
            final(self).program_at(program).attached@ == old(self).program_at(
                program,
            ).attached@.push(shader),
            *final(self) == (Device { programs: final(self).programs, ..*old(self) }),
    {
        let idx = ((program - 2) / 2) as usize;
        let slot = &mut self.programs[idx];
        slot.attached.push(shader);
    }

    /// Link program object `program`: the configured driver decision becomes
    /// the object's status and log.
    pub fn link_program(&mut self, program: u32)
        requires
            old(self).wf(),
            old(self).program_live(program),
        ensures
            final(self).wf(),
            final(self).programs@ == old(self).programs@.update(
                (program - 2) / 2,
                (ProgramSlot {
                    linked_ok: old(self).link_ok,
                    log: final(self).program_at(program).log,
                    ..old(self).program_at(program)
                }),
            ),
            final(self).program_at(program).linked_ok == old(self).link_ok,
            final(self).program_at(program).log@ == old(self).link_log@,
            *final(self) == (Device { programs: final(self).programs, ..*old(self) }),
    {
        let idx = ((program - 2) / 2) as usize;
        let ok = self.link_ok;
        let log = copy_bytes(&self.link_log);
        let slot = &mut self.programs[idx];
        slot.linked_ok = ok;
        slot.log = log;
    }

    /// Query an integer parameter of program object `program`: its link
    /// status or its reported log length.
    pub fn get_program_iv(&self, program: u32, pname: u32) -> (r: i32)
        requires
            self.wf(),
            self.program_live(program),
            pname == LINK_STATUS || pname == INFO_LOG_LENGTH,
        ensures
            pname == LINK_STATUS ==> ((r == STATUS_TRUE) <==> self.program_at(program).linked_ok),
            pname == INFO_LOG_LENGTH ==> 0 <= r && log_length_report(
                self.program_at(program).log@,
                r as int,
            ),
    {
        let slot = &self.programs[((program - 2) / 2) as usize];
        if pname == LINK_STATUS {
            if slot.linked_ok {
                STATUS_TRUE
            } else {
                0
            }
        } else {
            report_log_length(&slot.log, self.empty_log_reports_one)
        }
    }

    /// Copy the log of program object `program` into a fresh buffer of
    /// `bufsize` bytes (one byte is reserved for the terminator).
    pub fn get_program_info_log(&self, program: u32, bufsize: i32) -> (r: Vec<u8>)
        requires
            self.wf(),
            self.program_live(program),
            1 <= bufsize,
        ensures
            r@ == log_prefix(self.program_at(program).log@, bufsize as int),
    {
        let slot = &self.programs[((program - 2) / 2) as usize];
        copy_log_prefix(&slot.log, bufsize)
    }

    /// Make program object `program` the one draw calls use.
    pub fn use_program(&mut self, program: u32)
        requires
            old(self).wf(),
            old(self).program_live(program),
        ensures
            final(self).wf(),
            *final(self) == (Device { bound_program: program, ..*old(self) }),
    {
        self.bound_program = program;
    }

    /// Bind fragment output variable `name` of program object `program` to
    /// color slot `color`.
    pub fn bind_frag_data_location(&mut self, program: u32, color: u32, name: &str)
        requires
            old(self).wf(),
            old(self).program_live(program),
        ensures
            final(self).wf(),
            final(self).programs@ == old(self).programs@.update(
                (program - 2) / 2,
                (ProgramSlot {
                    frag_binds: final(self).program_at(program).frag_binds,
                    ..old(self).program_at(program)
                }),
            ),
            final(self).program_at(program).frag_binds@.len() == old(self).program_at(
                program,
            ).frag_binds@.len() + 1,
            forall|k: int|
                0 <= k < old(self).program_at(program).frag_binds@.len() ==> final(self).program_at(program).frag_binds@[k] == old(self).program_at(
                    program,
                ).frag_binds@[k],
            final(self).program_at(program).frag_binds@.last().color == color,
            final(self).program_at(program).frag_binds@.last().name@ == name@,
            *final(self) == (Device { programs: final(self).programs, ..*old(self) }),
    {
        let idx = ((program - 2) / 2) as usize;
        let entry = FragBindSlot { color, name: name.to_owned() };
        let slot = &mut self.programs[idx];
        slot.frag_binds.push(entry);
    }

    /// Record that the linker resolved attribute variable `name` of program
    /// object `program` to `location`.  This is the model's stand-in for the
    /// resolution a real linker performs while linking.
    pub fn set_attrib_location(&mut self, program: u32, name: &str, location: u32)
        requires
            old(self).wf(),
            old(self).program_live(program),
            location <= MAX_ATTRIB_LOCATION,
        ensures
            final(self).wf(),
            final(self).programs@ == old(self).programs@.update(
                (program - 2) / 2,
                (ProgramSlot {
                    attribs: final(self).program_at(program).attribs,
                    ..old(self).program_at(program)
                }),
            ),
            final(self).program_at(program).attribs@.len() == old(self).program_at(
                program,
            ).attribs@.len() + 1,
            forall|k: int|
                0 <= k < old(self).program_at(program).attribs@.len() ==> final(self).program_at(
                    program,
                ).attribs@[k] == old(self).program_at(program).attribs@[k],
            final(self).program_at(program).attribs@.last().name@ == name@,
            final(self).program_at(program).attribs@.last().location == location,
            *final(self) == (Device { programs: final(self).programs, ..*old(self) }),
    {
        let idx = ((program - 2) / 2) as usize;
        let entry = AttribSlot { name: name.to_owned(), location };
        let slot = &mut self.programs[idx];
        slot.attribs.push(entry);
    }

    /// The location of attribute variable `name` in program object
    /// `program`, or -1 when no attribute of that name was resolved.
    pub fn get_attrib_location(&self, program: u32, name: &str) -> (r: i32)
        requires
            self.wf(),
            self.program_live(program),
        ensures
            r as int == attrib_lookup(self.program_at(program).attribs@, name@, 0),
            -1 <= r,
    {
        let slot = &self.programs[((program - 2) / 2) as usize];
        let key = name.to_owned();
        let n = slot.attribs.len();
        let mut j: usize = 0;
        while j < n
            invariant
                self.wf(),
                self.program_live(program),
                slot == self.programs@[(program - 2) / 2],
                n == slot.attribs@.len(),
                j <= n,
                key@ == name@,
                forall|k: int| 0 <= k < j ==> (#[trigger] slot.attribs@[k]).name@ != name@,
            decreases n - j,
        {
            if slot.attribs[j].name == key {
                proof {
                    lemma_attrib_lookup_prefix(slot.attribs@, name@, j as int);
                    assert(self.wf());
                    assert(slot.attribs@[j as int].location <= MAX_ATTRIB_LOCATION);
                }
                return slot.attribs[j].location as i32;
            }
            j = j + 1;
        }
        proof {
            lemma_attrib_lookup_prefix(slot.attribs@, name@, n as int);
        }
        -1
    }

    /// Release program object `program`, unbinding it when it is in use.
    /// Releasing requires a live object, so per name a release happens at
    /// most once.
    pub fn delete_program(&mut self, program: u32)
        requires
            old(self).wf(),
            old(self).program_live(program),
        ensures
            final(self).wf(),
            final(self).programs@ == old(self).programs@.update(
                (program - 2) / 2,
                (ProgramSlot { live: false, ..old(self).program_at(program) }),
            ),
            !final(self).program_live(program),
            final(self).bound_program == (if old(self).bound_program == program {
                0u32
            } else {
                old(self).bound_program
            }),
            *final(self) == (Device {
                programs: final(self).programs,
                bound_program: final(self).bound_program,
                ..*old(self)
            }),
    {
        let idx = ((program - 2) / 2) as usize;
        let slot = &mut self.programs[idx];
        slot.live = false;
        if self.bound_program == program {
            self.bound_program = 0;
        }
    }

    /// Whether `name` denotes a live program object.
    pub fn is_program(&self, name: u32) -> (r: bool)
        ensures
            r == self.program_live(name),
    {
        name >= 2 && name % 2 == 0 && (((name - 2) / 2) as usize) < self.programs.len()
            && self.programs[((name - 2) / 2)
            as usize].live
    }
}

/// A well-formed shader slot: its log fits the 32-bit length report and is
/// valid text.  Diagnostic logs are the driver's output, and the expected
/// encoding is part of the driver contract: malformed driver text is an
/// integrity violation that the model excludes, not a recoverable
/// condition.
pub open spec fn shader_slot_ok(s: ShaderSlot) -> bool {
    s.log@.len() <= MAX_LOG_LEN && valid_utf8(s.log@)
}

/// A well-formed program slot: its log fits the 32-bit length report and is
/// valid text (see [`shader_slot_ok`]), and its attribute locations fit the
/// signed location query.
pub open spec fn program_slot_ok(p: ProgramSlot) -> bool {
    p.log@.len() <= MAX_LOG_LEN && valid_utf8(p.log@) && attrib_locations_ok(p)
}

/// Every attribute location the linker recorded on `p` fits the signed
/// 32-bit location query.
pub open spec fn attrib_locations_ok(p: ProgramSlot) -> bool {
    forall|j: int|
        0 <= j < p.attribs@.len() ==> (#[trigger] p.attribs@[j]).location <= MAX_ATTRIB_LOCATION
}

/// The location that a scan of `attribs` starting at position `i` resolves
/// `name` to: the location of the first entry with that name, or -1 when no
/// entry matches.
pub open spec fn attrib_lookup(attribs: Seq<AttribSlot>, name: Seq<char>, i: int) -> int
    decreases attribs.len() - i,
{
    if i < 0 || i >= attribs.len() {
        -1
    } else if attribs[i].name@ == name {
        attribs[i].location as int
    } else {
        attrib_lookup(attribs, name, i + 1)
    }
}

/// A scan that found no match before position `j` resolves to the same
/// location as a scan starting at `j`.
proof fn lemma_attrib_lookup_prefix(attribs: Seq<AttribSlot>, name: Seq<char>, j: int)
    requires
        0 <= j <= attribs.len(),
        forall|k: int| 0 <= k < j ==> (#[trigger] attribs[k]).name@ != name,
    ensures
        attrib_lookup(attribs, name, 0) == attrib_lookup(attribs, name, j),
    decreases j,
{
    if j > 0 {
        lemma_attrib_lookup_prefix(attribs, name, j - 1);
    }
}

/// A shader object seen through the status/log protocol's accessor pair.
pub struct ShaderLog<'a> {
    /// The context the object lives in.
    pub dev: &'a Device,
    /// The shader object's name.
    pub object: u32,
}

impl<'a> StatusLogSource for ShaderLog<'a> {
    open spec fn inv(&self) -> bool {
        self.dev.wf() && self.dev.shader_live(self.object)
    }

    open spec fn status_ok(&self) -> bool {
        self.dev.shader_at(self.object).compiled_ok
    }

    open spec fn log(&self) -> Seq<u8> {
        self.dev.shader_at(self.object).log@
    }

    open spec fn status_param(&self) -> u32 {
        COMPILE_STATUS
    }

    fn get_param(&self, pname: u32) -> (r: i32) {
        self.dev.get_shader_iv(self.object, pname)
    }

    fn get_log(&self, bufsize: i32) -> (r: Vec<u8>) {
        self.dev.get_shader_info_log(self.object, bufsize)
    }
}

/// A program object seen through the status/log protocol's accessor pair.
pub struct ProgramLog<'a> {
    /// The context the object lives in.
    pub dev: &'a Device,
    /// The program object's name.
    pub object: u32,
}

impl<'a> StatusLogSource for ProgramLog<'a> {
    open spec fn inv(&self) -> bool {
        self.dev.wf() && self.dev.program_live(self.object)
    }

    open spec fn status_ok(&self) -> bool {
        self.dev.program_at(self.object).linked_ok
    }

    open spec fn log(&self) -> Seq<u8> {
        self.dev.program_at(self.object).log@
    }

    open spec fn status_param(&self) -> u32 {
        LINK_STATUS
    }

    fn get_param(&self, pname: u32) -> (r: i32) {
        self.dev.get_program_iv(self.object, pname)
    }

    fn get_log(&self, bufsize: i32) -> (r: Vec<u8>) {
        self.dev.get_program_info_log(self.object, bufsize)
    }
}

impl Device {
    /// Create a fresh buffer object with an empty store.
    pub fn gen_buffer(&mut self) -> (name: u32)
        requires
            old(self).wf(),
            old(self).buffers@.len() < MAX_OBJECTS,
        ensures
            final(self).wf(),
            name == old(self).buffers@.len() + 1,
            !old(self).buffer_valid(name),
            final(self).buffer_live(name),
            final(self).buffer_at(name).size == 0,
            final(self).buffers@.len() == old(self).buffers@.len() + 1,
            forall|i: int|
                0 <= i < old(self).buffers@.len() ==> final(self).buffers@[i] == old(
                    self,
                ).buffers@[i],
            *final(self) == (Device { buffers: final(self).buffers, ..*old(self) }),
    {
        let name = self.buffers.len() as u32 + 1;
        self.buffers.push(BufferSlot { live: true, size: 0, usage: 0 });
        name
    }

    /// Bind buffer object `name` to the array-buffer target, or unbind with
    /// `name == 0`.
    pub fn bind_array_buffer(&mut self, name: u32)
        requires
            old(self).wf(),
            name == 0 || old(self).buffer_live(name),
        ensures
            final(self).wf(),
            *final(self) == (Device { bound_array_buffer: name, ..*old(self) }),
    {
        self.bound_array_buffer = name;
    }

    /// Create and fill the store of the buffer bound to the array-buffer
    /// target: `size` bytes, tagged with the usage hint `usage`.
    pub fn buffer_data(&mut self, size: usize, usage: u32)
        requires
            old(self).wf(),
            old(self).buffer_live(old(self).bound_array_buffer),
        ensures
            final(self).wf(),
            final(self).buffers@ == old(self).buffers@.update(
                old(self).bound_array_buffer - 1,
                (BufferSlot { size, usage, ..old(self).buffer_at(old(self).bound_array_buffer) }),
            ),
            final(self).buffer_at(final(self).bound_array_buffer).size == size,
            final(self).buffer_at(final(self).bound_array_buffer).usage == usage,
            *final(self) == (Device { buffers: final(self).buffers, ..*old(self) }),
    {
        let idx = (self.bound_array_buffer - 1) as usize;
        let slot = &mut self.buffers[idx];
        slot.size = size;
        slot.usage = usage;
    }

    /// The store size, in bytes, of buffer object `name`.
    pub fn get_buffer_size(&self, name: u32) -> (r: usize)
        requires
            self.wf(),
            self.buffer_live(name),
        ensures
            r == self.buffer_at(name).size,
    {
        self.buffers[(name - 1) as usize].size
    }

    /// Release buffer object `name`, unbinding it from the array-buffer
    /// target when it is bound there.  Releasing requires a live object, so
    /// per name a release happens at most once.
    pub fn delete_buffer(&mut self, name: u32)
        requires
            old(self).wf(),
            old(self).buffer_live(name),
        ensures
            final(self).wf(),
            final(self).buffers@ == old(self).buffers@.update(
                name - 1,
                (BufferSlot { live: false, ..old(self).buffer_at(name) }),
            ),
            !final(self).buffer_live(name),
            final(self).bound_array_buffer == (if old(self).bound_array_buffer == name {
                0u32
            } else {
                old(self).bound_array_buffer
            }),
            *final(self) == (Device {
                buffers: final(self).buffers,
                bound_array_buffer: final(self).bound_array_buffer,
                ..*old(self)
            }),
    {
        let idx = (name - 1) as usize;
        let slot = &mut self.buffers[idx];
        slot.live = false;
        if self.bound_array_buffer == name {
            self.bound_array_buffer = 0;
        }
    }

    /// Whether `name` denotes a live buffer object.
    pub fn is_buffer(&self, name: u32) -> (r: bool)
        ensures
            r == self.buffer_live(name),
    {
        name >= 1 && (name as usize) <= self.buffers.len() && self.buffers[(name - 1)
            as usize].live
    }

    /// Create a fresh, empty vertex array object.
    pub fn gen_vertex_array(&mut self) -> (name: u32)
        requires
            old(self).wf(),
            old(self).arrays@.len() < MAX_OBJECTS,
        ensures
            final(self).wf(),
            name == old(self).arrays@.len() + 1,
            !old(self).array_valid(name),
            final(self).array_live(name),
            final(self).array_at(name).enabled@ == Seq::<u32>::empty(),
            final(self).array_at(name).pointers@.len() == 0,
            final(self).arrays@.len() == old(self).arrays@.len() + 1,
            forall|i: int|
                0 <= i < old(self).arrays@.len() ==> final(self).arrays@[i] == old(self).arrays@[i],
            *final(self) == (Device { arrays: final(self).arrays, ..*old(self) }),
    {
        let name = self.arrays.len() as u32 + 1;
        self.arrays.push(ArraySlot { live: true, enabled: Vec::new(), pointers: Vec::new() });
        name
    }

    /// Bind vertex array object `name`, or unbind with `name == 0`.
    pub fn bind_vertex_array(&mut self, name: u32)
        requires
            old(self).wf(),
            name == 0 || old(self).array_live(name),
        ensures
            final(self).wf(),
            *final(self) == (Device { bound_vertex_array: name, ..*old(self) }),
    {
        self.bound_vertex_array = name;
    }

    /// Enable the vertex attribute array at location `index` on the bound
    /// vertex array object.
    pub fn enable_vertex_attrib_array(&mut self, index: u32)
        requires
            old(self).wf(),
            old(self).array_live(old(self).bound_vertex_array),
        ensures
            final(self).wf(),
            final(self).arrays@ == old(self).arrays@.update(
                old(self).bound_vertex_array - 1,
                (ArraySlot {
                    enabled: final(self).array_at(old(self).bound_vertex_array).enabled,
                    ..old(self).array_at(old(self).bound_vertex_array)
                }),
            ),
            final(self).array_at(old(self).bound_vertex_array).enabled@ == old(self).array_at(
                old(self).bound_vertex_array,
            ).enabled@.push(index),
            *final(self) == (Device { arrays: final(self).arrays, ..*old(self) }),
    {
        let idx = (self.bound_vertex_array - 1) as usize;
        let slot = &mut self.arrays[idx];
        slot.enabled.push(index);
    }

    /// Describe, on the bound vertex array object, the layout of the
    /// attribute at location `index` inside the buffer currently bound to
    /// the array-buffer target: `components` single-precision float
    /// components per vertex (the element type is fixed to `FLOAT`, not
    /// normalized), consecutive vertices `stride` bytes apart, the first
    /// component `offset` bytes into the buffer.
    pub fn vertex_attrib_pointer(&mut self, index: u32, components: i32, stride: i32, offset: usize)
        requires
            old(self).wf(),
            old(self).array_live(old(self).bound_vertex_array),
            old(self).buffer_live(old(self).bound_array_buffer),
            1 <= components <= 4,
            0 <= stride,
        ensures
            final(self).wf(),
            final(self).arrays@ == old(self).arrays@.update(
                old(self).bound_vertex_array - 1,
                (ArraySlot {
                    pointers: final(self).array_at(old(self).bound_vertex_array).pointers,
                    ..old(self).array_at(old(self).bound_vertex_array)
                }),
            ),
            final(self).array_at(old(self).bound_vertex_array).pointers@ == old(self).array_at(
                old(self).bound_vertex_array,
            ).pointers@.push(
                (AttribPointerSlot {
                    index,
                    components,
                    element_type: FLOAT,
                    normalized: false,
                    stride,
                    offset,
                    buffer: old(self).bound_array_buffer,
                }),
            ),
            *final(self) == (Device { arrays: final(self).arrays, ..*old(self) }),
    {
        let idx = (self.bound_vertex_array - 1) as usize;
        let entry = AttribPointerSlot {
            index,
            components,
            element_type: FLOAT,
            normalized: false,
            stride,
            offset,
            buffer: self.bound_array_buffer,
        };
        let slot = &mut self.arrays[idx];
        slot.pointers.push(entry);
    }

    /// Release vertex array object `name`, unbinding it when it is bound.
    /// Releasing requires a live object, so per name a release happens at
    /// most once.
    pub fn delete_vertex_array(&mut self, name: u32)
        requires
            old(self).wf(),
            old(self).array_live(name),
        ensures
            final(self).wf(),
            final(self).arrays@ == old(self).arrays@.update(
                name - 1,
                (ArraySlot { live: false, ..old(self).array_at(name) }),
            ),
            !final(self).array_live(name),
            final(self).bound_vertex_array == (if old(self).bound_vertex_array == name {
                0u32
            } else {
                old(self).bound_vertex_array
            }),
            *final(self) == (Device {
                arrays: final(self).arrays,
                bound_vertex_array: final(self).bound_vertex_array,
                ..*old(self)
            }),
    {
        let idx = (name - 1) as usize;
        let slot = &mut self.arrays[idx];
        slot.live = false;
        if self.bound_vertex_array == name {
            self.bound_vertex_array = 0;
        }
    }

    /// Whether `name` denotes a live vertex array object.
    pub fn is_vertex_array(&self, name: u32) -> (r: bool)
        ensures
            r == self.array_live(name),
    {
        name >= 1 && (name as usize) <= self.arrays.len() && self.arrays[(name - 1) as usize].live
    }

    /// Issue a draw call: `count` vertices starting at vertex `first`,
    /// interpreted as topology `mode`, under the current bindings.
    pub fn draw_arrays(&mut self, mode: u32, first: i32, count: i32)
        requires
            old(self).wf(),
            0 <= first,
            0 <= count,
        ensures
            final(self).wf(),
            final(self).draw_calls@ == old(self).draw_calls@.push(
                (DrawCallSlot {
                    mode,
                    first,
                    count,
                    program: old(self).bound_program,
                    vertex_array: old(self).bound_vertex_array,
                }),
            ),
            *final(self) == (Device { draw_calls: final(self).draw_calls, ..*old(self) }),
    {
        let entry = DrawCallSlot {
            mode,
            first,
            count,
            program: self.bound_program,
            vertex_array: self.bound_vertex_array,
        };
        self.draw_calls.push(entry);
    }

    /// How many draw calls have been issued.
    pub fn draw_call_count(&self) -> (r: usize)
        ensures
            r == self.draw_calls@.len(),
    {
        self.draw_calls.len()
    }
}

/// Copy a byte vector element by element.
fn copy_bytes(v: &Vec<u8>) -> (r: Vec<u8>)
    ensures
        r@ == v@,
{
    let mut r: Vec<u8> = Vec::new();
    let mut i: usize = 0;
    while i < v.len()
        invariant
            i <= v@.len(),
            r@ == v@.take(i as int),
        decreases v@.len() - i,
    {
        r.push(v[i]);
        proof {
            assert(v@.take(i + 1 as int) =~= v@.take(i as int).push(v@[i as int]));
        }
        i = i + 1;
    }
    proof {
        assert(v@.take(v@.len() as int) =~= v@);
    }
    r
}

/// The reported length of log `log`: its length plus one for the trailing
/// terminator, except that an empty log is reported as 0 or — for drivers
/// that store a terminator-only log — as 1.
fn report_log_length(log: &Vec<u8>, empty_reports_one: bool) -> (r: i32)
    requires
        log@.len() <= MAX_LOG_LEN,
    ensures
        0 <= r && log_length_report(log@, r as int),
{
    let n = log.len();
    if n == 0 {
        if empty_reports_one {
            1
        } else {
            0
        }
    } else {
        (n + 1) as i32
    }
}

/// The first `bufsize - 1` bytes of `log` (or all of it, when shorter).
fn copy_log_prefix(log: &Vec<u8>, bufsize: i32) -> (r: Vec<u8>)
    requires
        1 <= bufsize,
    ensures
        r@ == log_prefix(log@, bufsize as int),
{
    let mut limit = (bufsize - 1) as usize;
    if limit > log.len() {
        limit = log.len();
    }
    let mut r: Vec<u8> = Vec::new();
    let mut i: usize = 0;
    while i < limit
        invariant
            i <= limit,
            limit <= log@.len(),
            limit == vstd::math::min(bufsize - 1, log@.len() as int),
            r@ == log@.take(i as int),
        decreases limit - i,
    {
        r.push(log[i]);
        proof {
            assert(log@.take(i + 1 as int) =~= log@.take(i as int).push(log@[i as int]));
        }
        i = i + 1;
    }
    r
}

} // verus!
