//! Owned program objects: compiled shaders linked together.

use crate::device::Device;
use crate::device::ProgramLog;
use crate::device::ProgramSlot;
use crate::device::MAX_SHARED_OBJECTS;
use crate::glenum::LINK_STATUS;
use crate::shader::Shader;
use crate::status_log::get_info_log;
use vstd::prelude::*;
use vstd::utf8::valid_utf8;

verus! {

/// A program: multiple compiled shaders "linked" together into one
/// executable pipeline.  The wrapper's lifetime governs the lifetime of the
/// underlying object, whose release consumes the wrapper.
#[derive(Debug)]
pub struct Program {
    name: u32,
}

impl Program {
    /// The wrapped object name.
    pub closed spec fn id(self) -> u32 {
        self.name
    }

    /// The wrapper refers to a live program object of `dev`.
    pub open spec fn valid(self, dev: Device) -> bool {
        dev.program_live(self.id())
    }

    /// Returns the name (id) of the program.
    pub fn name(&self) -> (r: u32)
        ensures
            r == self.id(),
    {
        self.name
    }

    /// Link shaders into a program.
    ///
    /// Creates a fresh program object, attaches every shader in order (there
    /// are no relevant attachment errors to handle), links, and runs the
    /// status/log protocol against the link status.  On success the owning
    /// `Program` is returned; the attached shaders may be released
    /// afterwards without invalidating it.  On failure the complete
    /// diagnostic log (possibly empty, always well-formed text — the context
    /// invariant holds the driver to that) is returned and the partially
    /// created object is released before returning, so a failed link leaks
    /// nothing.
    pub fn link(dev: &mut Device, shaders: &[Shader]) -> (r: Result<Program, Vec<u8>>)
        requires
            old(dev).wf(),
            old(dev).programs@.len() < MAX_SHARED_OBJECTS,
            forall|i: int| 0 <= i < shaders@.len() ==> (#[trigger] shaders@[i]).valid(*old(dev)),
        ensures
            final(dev).wf(),
            final(dev).programs@.len() == old(dev).programs@.len() + 1,
            forall|i: int|
                0 <= i < old(dev).programs@.len() ==> final(dev).programs@[i] == old(dev).programs@[i],
            *final(dev) == (Device { programs: final(dev).programs, ..*old(dev) }),
            (r is Ok) <==> old(dev).link_ok,
            match r {
                Ok(program) => {
                    &&& program.id() == 2 * old(dev).programs@.len() + 2
                    &&& !old(dev).program_valid(program.id())
                    &&& !old(dev).shader_valid(program.id())
                    &&& !final(dev).shader_valid(program.id())
                    &&& program.valid(*final(dev))
                    &&& final(dev).program_at(program.id()).linked_ok
                    &&& final(dev).program_at(program.id()).log@ == old(dev).link_log@
                    &&& final(dev).program_at(program.id()).attached@.len() == shaders@.len()
                    &&& forall|i: int|
                        0 <= i < shaders@.len() ==> final(dev).program_at(
                            program.id(),
                        ).attached@[i] == (#[trigger] shaders@[i]).id()
                },
                Err(log) => {
                    &&& log@ == old(dev).link_log@
                    &&& valid_utf8(log@)
                    &&& !final(dev).program_live((2 * old(dev).programs@.len() + 2) as u32)
                },
            },
    {
        let program = dev.create_program();

        attach_all(dev, program, shaders);
        dev.link_program(program);

        let queries = ProgramLog { dev: &*dev, object: program };
        match get_info_log(&queries, LINK_STATUS) {
            Some(s) => {
                dev.delete_program(program);
                Err(s)
            },
            None => Ok(Program { name: program }),
        }
    }

    /// Bind this program as the one subsequent draw calls use.  Mutates the
    /// context's global binding state; no prior binding is restored.
    pub fn activate(&self, dev: &mut Device)
        requires
            old(dev).wf(),
            self.valid(*old(dev)),
        ensures
            final(dev).wf(),
            final(dev).bound_program == self.id(),
            *final(dev) == (Device { bound_program: self.id(), ..*old(dev) }),
    {
        dev.use_program(self.name);
    }

    /// Associate fragment output variable `name` with color slot
    /// `color_number`.  The underlying API applies such a request at the
    /// next link, so it takes effect only when issued before linking — the
    /// caller's responsibility; the request is recorded either way.
    pub fn bind_frag(&self, dev: &mut Device, color_number: u32, name: &str)
        requires
            old(dev).wf(),
            self.valid(*old(dev)),
        ensures
            final(dev).wf(),
            final(dev).programs@ == old(dev).programs@.update(
                (self.id() - 2) / 2,
                (ProgramSlot {
                    frag_binds: final(dev).program_at(self.id()).frag_binds,
                    ..old(dev).program_at(self.id())
                }),
            ),
            final(dev).program_at(self.id()).frag_binds@.len() == old(dev).program_at(
                self.id(),
            ).frag_binds@.len() + 1,
            forall|k: int|
                0 <= k < old(dev).program_at(self.id()).frag_binds@.len() ==> final(dev).program_at(self.id()).frag_binds@[k] == old(dev).program_at(
                    self.id(),
                ).frag_binds@[k],
            final(dev).program_at(self.id()).frag_binds@.last().color == color_number,
            final(dev).program_at(self.id()).frag_binds@.last().name@ == name@,
            *final(dev) == (Device { programs: final(dev).programs, ..*old(dev) }),
    {
        dev.bind_frag_data_location(self.name, color_number, name);
    }

    /// Release the program object, unbinding it when it is in use.  The
    /// wrapper is consumed, so the release for this handle is issued exactly
    /// once.
    pub fn delete(self, dev: &mut Device)
        requires
            old(dev).wf(),
            self.valid(*old(dev)),
        ensures
            final(dev).wf(),
            !final(dev).program_live(self.id()),
            final(dev).programs@ == old(dev).programs@.update(
                (self.id() - 2) / 2,
                (ProgramSlot { live: false, ..old(dev).program_at(self.id()) }),
            ),
            final(dev).bound_program == (if old(dev).bound_program == self.id() {
                0u32
            } else {
                old(dev).bound_program
            }),
            *final(dev) == (Device {
                programs: final(dev).programs,
                bound_program: final(dev).bound_program,
                ..*old(dev)
            }),
    {
        dev.delete_program(self.name);
    }
}

/// Law: shader and program objects share one name space, so a valid shader
/// wrapper and a valid program wrapper never hold the same handle; in
/// particular, a linked program's handle is distinct from the handles of
/// the shaders it was linked from.
pub proof fn lemma_shader_program_handles_distinct(dev: Device, shader: Shader, program: Program)
    requires
        shader.valid(dev),
        program.valid(dev),
    ensures
        shader.id() != program.id(),
{
}

/// Attach every shader in `shaders`, in order, to program object `program`,
/// which must have nothing attached yet.
fn attach_all(dev: &mut Device, program: u32, shaders: &[Shader])
    requires
        old(dev).wf(),
        old(dev).program_live(program),
        old(dev).program_at(program).attached@.len() == 0,
        forall|i: int| 0 <= i < shaders@.len() ==> (#[trigger] shaders@[i]).valid(*old(dev)),
    ensures
        final(dev).wf(),
        final(dev).programs@ == old(dev).programs@.update(
            (program - 2) / 2,
            (ProgramSlot {
                attached: final(dev).program_at(program).attached,
                ..old(dev).program_at(program)
            }),
        ),
        final(dev).program_at(program).attached@.len() == shaders@.len(),
        forall|i: int|
            0 <= i < shaders@.len() ==> final(dev).program_at(program).attached@[i] == (
            #[trigger] shaders@[i]).id(),
        *final(dev) == (Device { programs: final(dev).programs, ..*old(dev) }),
{
    proof {
        assert(old(dev).programs@.update((program - 2) / 2, old(dev).programs@[(program - 2) / 2])
            =~= old(dev).programs@);
    }
    let mut i: usize = 0;
    while i < shaders.len()
        invariant
            old(dev).wf(),
            dev.wf(),
            old(dev).program_live(program),
            dev.program_live(program),
            i <= shaders@.len(),
            forall|k: int| 0 <= k < shaders@.len() ==> (#[trigger] shaders@[k]).valid(*old(dev)),
            dev.programs@ == old(dev).programs@.update(
                (program - 2) / 2,
                (ProgramSlot {
                    attached: dev.program_at(program).attached,
                    ..old(dev).program_at(program)
                }),
            ),
            dev.program_at(program).attached@.len() == i,
            forall|k: int|
                0 <= k < i ==> dev.program_at(program).attached@[k] == (
                #[trigger] shaders@[k]).id(),
            *dev == (Device { programs: dev.programs, ..*old(dev) }),
        decreases shaders@.len() - i,
    {
        dev.attach_shader(program, shaders[i].name());
        proof {
            assert(dev.programs@ =~= old(dev).programs@.update(
                (program - 2) / 2,
                dev.programs@[(program - 2) / 2],
            ));
        }
        i = i + 1;
    }
}

} // verus!
