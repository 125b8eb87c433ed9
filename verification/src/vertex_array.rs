//! Owned vertex array objects and draw primitives.

use crate::device::attrib_lookup;
use crate::device::ArraySlot;
use crate::device::AttribPointerSlot;
use crate::device::Device;
use crate::device::DrawCallSlot;
use crate::device::MAX_OBJECTS;
use crate::glenum::FLOAT;
use crate::glenum::LINES;
use crate::glenum::LINE_LOOP;
use crate::glenum::LINE_STRIP;
use crate::glenum::POINTS;
use crate::glenum::TRIANGLES;
use crate::glenum::TRIANGLE_FAN;
use crate::glenum::TRIANGLE_STRIP;
use crate::program::Program;
use vstd::prelude::*;

verus! {

/// Primitive topologies a draw call can use.
#[derive(Clone, Copy, PartialEq, Eq, Structural, Debug)]
pub enum Primitive {
    /// Independent points.
    Points,
    /// Independent line segments.
    Lines,
    /// A connected strip of line segments.
    LineStrip,
    /// A closed loop of line segments.
    LineLoop,
    /// Independent triangles.
    Triangles,
    /// A connected strip of triangles.
    TriangleStrip,
    /// A fan of triangles around the first vertex.
    TriangleFan,
}

impl Primitive {
    /// The numeric constant the underlying API uses for this topology.
    pub open spec fn as_glenum(self) -> u32 {
        match self {
            Primitive::Points => POINTS,
            Primitive::Lines => LINES,
            Primitive::LineStrip => LINE_STRIP,
            Primitive::LineLoop => LINE_LOOP,
            Primitive::Triangles => TRIANGLES,
            Primitive::TriangleStrip => TRIANGLE_STRIP,
            Primitive::TriangleFan => TRIANGLE_FAN,
        }
    }

    /// Convert a Primitive into its corresponding numeric value.
    pub fn to_glenum(&self) -> (r: u32)
        ensures
            r == self.as_glenum(),
    {
        match *self {
            Primitive::Points => POINTS,
            Primitive::Lines => LINES,
            Primitive::LineStrip => LINE_STRIP,
            Primitive::LineLoop => LINE_LOOP,
            Primitive::Triangles => TRIANGLES,
            Primitive::TriangleStrip => TRIANGLE_STRIP,
            Primitive::TriangleFan => TRIANGLE_FAN,
        }
    }
}

/// An owned vertex array object.  The wrapper's lifetime governs the
/// lifetime of the underlying object, whose release consumes the wrapper.
#[derive(Debug)]
pub struct Vao {
    name: u32,
}

impl Vao {
    /// The wrapped object name.
    pub closed spec fn id(self) -> u32 {
        self.name
    }

    /// The wrapper refers to a live vertex array object of `dev`.
    pub open spec fn valid(self, dev: Device) -> bool {
        dev.array_live(self.id())
    }

    /// Allocate a fresh, empty vertex array object.
    pub fn new(dev: &mut Device) -> (r: Vao)
        requires
            old(dev).wf(),
            old(dev).arrays@.len() < MAX_OBJECTS,
        ensures
            final(dev).wf(),
            r.id() == old(dev).arrays@.len() + 1,
            !old(dev).array_valid(r.id()),
            r.valid(*final(dev)),
            final(dev).array_at(r.id()).enabled@ == Seq::<u32>::empty(),
            final(dev).array_at(r.id()).pointers@.len() == 0,
            final(dev).arrays@.len() == old(dev).arrays@.len() + 1,
            forall|i: int|
                0 <= i < old(dev).arrays@.len() ==> final(dev).arrays@[i] == old(dev).arrays@[i],
            *final(dev) == (Device { arrays: final(dev).arrays, ..*old(dev) }),
    {
        let name = dev.gen_vertex_array();
        Vao { name }
    }

    /// Returns the name (id) of the vertex array object.
    pub fn name(&self) -> (r: u32)
        ensures
            r == self.id(),
    {
        self.name
    }

    /// Bind this vertex array object.  Mutates the context's global binding
    /// state; no prior binding is restored.
    pub fn activate(&self, dev: &mut Device)
        requires
            old(dev).wf(),
            self.valid(*old(dev)),
        ensures
            final(dev).wf(),
            final(dev).bound_vertex_array == self.id(),
            *final(dev) == (Device { bound_vertex_array: self.id(), ..*old(dev) }),
    {
        dev.bind_vertex_array(self.name);
    }

    /// Define and enable an array of generic vertex attribute data for
    /// `name` in `program`, using this VAO: `elts` floating-point components
    /// per vertex, not normalized, consecutive vertices `stride` bytes
    /// apart, starting `offset` bytes into the buffer currently bound to the
    /// array-buffer target.  Binds this VAO as a side effect.
    ///
    /// Returns the attribute's resolved location, or `None` — with nothing
    /// enabled — when `program` has no active attribute of that name (for
    /// example misspelled, or optimized out), instead of silently enabling a
    /// meaningless attribute index.
    pub fn enable_attrib(
        &self,
        dev: &mut Device,
        program: &Program,
        name: &str,
        elts: i32,
        stride: i32,
        offset: usize,
    ) -> (r: Option<u32>)
        requires
            old(dev).wf(),
            self.valid(*old(dev)),
            program.valid(*old(dev)),
            old(dev).buffer_live(old(dev).bound_array_buffer),
            1 <= elts <= 4,
            0 <= stride,
        ensures
            final(dev).wf(),
            final(dev).bound_vertex_array == self.id(),
            (r is Some) <==> attrib_lookup(
                old(dev).program_at(program.id()).attribs@,
                name@,
                0,
            ) >= 0,
            match r {
                Some(loc) => {
                    &&& loc as int == attrib_lookup(
                        old(dev).program_at(program.id()).attribs@,
                        name@,
                        0,
                    )
                    &&& final(dev).arrays@ == old(dev).arrays@.update(
                        self.id() - 1,
                        (ArraySlot {
                            enabled: final(dev).array_at(self.id()).enabled,
                            pointers: final(dev).array_at(self.id()).pointers,
                            ..old(dev).array_at(self.id())
                        }),
                    )
                    &&& final(dev).array_at(self.id()).enabled@ == old(dev).array_at(
                        self.id(),
                    ).enabled@.push(loc)
                    &&& final(dev).array_at(self.id()).pointers@ == old(dev).array_at(
                        self.id(),
                    ).pointers@.push(
                        (AttribPointerSlot {
                            index: loc,
                            components: elts,
                            element_type: FLOAT,
                            normalized: false,
                            stride,
                            offset,
                            buffer: old(dev).bound_array_buffer,
                        }),
                    )
                    &&& *final(dev) == (Device {
                        arrays: final(dev).arrays,
                        bound_vertex_array: self.id(),
                        ..*old(dev)
                    })
                },
                None => *final(dev) == (Device { bound_vertex_array: self.id(), ..*old(dev) }),
            },
    {
        self.activate(dev);
        let pos = dev.get_attrib_location(program.name(), name);
        if pos < 0 {
            return None;
        }
        let loc = pos as u32;
        dev.enable_vertex_attrib_array(loc);
        dev.vertex_attrib_pointer(loc, elts, stride, offset);
        proof {
            assert(dev.arrays@ =~= old(dev).arrays@.update(
                self.id() - 1,
                dev.arrays@[self.id() - 1],
            ));
        }
        Some(loc)
    }

    /// Draw the given primitive, using `count` vertices starting at offset
    /// `first` in the currently bound VBO.
    pub fn draw(&self, dev: &mut Device, primitive: Primitive, first: i32, count: i32)
        requires
            old(dev).wf(),
            0 <= first,
            0 <= count,
        ensures
            final(dev).wf(),
            final(dev).draw_calls@ == old(dev).draw_calls@.push(
                (DrawCallSlot {
                    mode: primitive.as_glenum(),
                    first,
                    count,
                    program: old(dev).bound_program,
                    vertex_array: old(dev).bound_vertex_array,
                }),
            ),
            *final(dev) == (Device { draw_calls: final(dev).draw_calls, ..*old(dev) }),
    {
        dev.draw_arrays(primitive.to_glenum(), first, count);
    }

    /// Release the vertex array object, unbinding it when it is bound.  The
    /// wrapper is consumed, so the release for this handle is issued exactly
    /// once.
    pub fn delete(self, dev: &mut Device)
        requires
            old(dev).wf(),
            self.valid(*old(dev)),
        ensures
            final(dev).wf(),
            !final(dev).array_live(self.id()),
            final(dev).arrays@ == old(dev).arrays@.update(
                self.id() - 1,
                (ArraySlot { live: false, ..old(dev).array_at(self.id()) }),
            ),
            final(dev).bound_vertex_array == (if old(dev).bound_vertex_array == self.id() {
                0u32
            } else {
                old(dev).bound_vertex_array
            }),
            *final(dev) == (Device {
                arrays: final(dev).arrays,
                bound_vertex_array: final(dev).bound_vertex_array,
                ..*old(dev)
            }),
    {
        dev.delete_vertex_array(self.name);
    }
}

} // verus!
