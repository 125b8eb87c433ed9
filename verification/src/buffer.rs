//! Owned vertex buffer objects.

use crate::device::BufferSlot;
use crate::device::Device;
use crate::device::MAX_OBJECTS;
use crate::glenum::DYNAMIC_DRAW;
use crate::glenum::STATIC_DRAW;
use crate::glenum::STREAM_DRAW;
use vstd::prelude::*;

verus! {

/// Frequency with which the vbo is expected to be updated.
#[derive(Clone, Copy, PartialEq, Eq, Structural, Debug)]
pub enum VboUsage {
    /// Updated once, drawn many times.
    StaticDraw,
    /// Updated many times, drawn many times.
    DynamicDraw,
    /// Updated once, drawn once.
    StreamDraw,
}

impl VboUsage {
    /// The numeric constant the underlying API uses for this usage hint.
    pub open spec fn as_glenum(self) -> u32 {
        match self {
            VboUsage::StaticDraw => STATIC_DRAW,
            VboUsage::DynamicDraw => DYNAMIC_DRAW,
            VboUsage::StreamDraw => STREAM_DRAW,
        }
    }

    /// Convert a VboUsage into its corresponding numeric value.
    pub fn to_glenum(&self) -> (r: u32)
        ensures
            r == self.as_glenum(),
    {
        match *self {
            VboUsage::StaticDraw => STATIC_DRAW,
            VboUsage::DynamicDraw => DYNAMIC_DRAW,
            VboUsage::StreamDraw => STREAM_DRAW,
        }
    }
}

/// An owned vertex buffer object.  The wrapper's lifetime governs the
/// lifetime of the underlying object, whose release consumes the wrapper.
#[derive(Debug)]
pub struct Vbo {
    name: u32,
}

impl Vbo {
    /// The wrapped object name.
    pub closed spec fn id(self) -> u32 {
        self.name
    }

    /// The wrapper refers to a live buffer object of `dev`.
    pub open spec fn valid(self, dev: Device) -> bool {
        dev.buffer_live(self.id())
    }

    /// Returns the name (id) of the buffer.
    pub fn name(&self) -> (r: u32)
        ensures
            r == self.id(),
    {
        self.name
    }

    /// Generate a new VBO and upload `data` to it.
    ///
    /// The buffer stores the byte-exact contents of `data` (element count
    /// times element size bytes), placed according to the usage hint.  As a
    /// side effect the new buffer stays bound to the array-buffer target.
    /// An empty slice is a valid upload and yields a live buffer with a
    /// store of zero bytes; the upload itself always succeeds in this model,
    /// so the result is always `Ok` (the `Result` keeps room for surfacing a
    /// failed allocation).
    pub fn from_data<T>(dev: &mut Device, data: &[T], usage: VboUsage) -> (r: Result<Vbo, Vec<u8>>)
        requires
            old(dev).wf(),
            old(dev).buffers@.len() < MAX_OBJECTS,
            data@.len() * vstd::layout::size_of::<T>() <= usize::MAX,
        ensures
            final(dev).wf(),
            r is Ok,
            final(dev).buffers@.len() == old(dev).buffers@.len() + 1,
            forall|i: int|
                0 <= i < old(dev).buffers@.len() ==> final(dev).buffers@[i] == old(dev).buffers@[i],
            match r {
                Ok(vbo) => {
                    &&& vbo.id() == old(dev).buffers@.len() + 1
                    &&& !old(dev).buffer_valid(vbo.id())
                    &&& vbo.valid(*final(dev))
                    &&& final(dev).buffer_at(vbo.id()).size == data@.len() * vstd::layout::size_of::<
                        T,
                    >()
                    &&& final(dev).buffer_at(vbo.id()).usage == usage.as_glenum()
                    &&& final(dev).bound_array_buffer == vbo.id()
                },
                Err(_) => false,
            },
            *final(dev) == (Device {
                buffers: final(dev).buffers,
                bound_array_buffer: final(dev).bound_array_buffer,
                ..*old(dev)
            }),
    {
        let vbo = dev.gen_buffer();
        dev.bind_array_buffer(vbo);
        let size = data.len() * core::mem::size_of::<T>();
        dev.buffer_data(size, usage.to_glenum());
        Ok(Vbo { name: vbo })
    }

    /// Bind this buffer to the array-buffer target.  Mutates the context's
    /// global binding state; no prior binding is restored.
    pub fn activate(&self, dev: &mut Device)
        requires
            old(dev).wf(),
            self.valid(*old(dev)),
        ensures
            final(dev).wf(),
            final(dev).bound_array_buffer == self.id(),
            *final(dev) == (Device { bound_array_buffer: self.id(), ..*old(dev) }),
    {
        dev.bind_array_buffer(self.name);
    }

    /// Release the buffer object, unbinding it when it is bound.  The
    /// wrapper is consumed, so the release for this handle is issued exactly
    /// once.
    pub fn delete(self, dev: &mut Device)
        requires
            old(dev).wf(),
            self.valid(*old(dev)),
        ensures
            final(dev).wf(),
            !final(dev).buffer_live(self.id()),
            final(dev).buffers@ == old(dev).buffers@.update(
                self.id() - 1,
                (BufferSlot { live: false, ..old(dev).buffer_at(self.id()) }),
            ),
            final(dev).bound_array_buffer == (if old(dev).bound_array_buffer == self.id() {
                0u32
            } else {
                old(dev).bound_array_buffer
            }),
            *final(dev) == (Device {
                buffers: final(dev).buffers,
                bound_array_buffer: final(dev).bound_array_buffer,
                ..*old(dev)
            }),
    {
        dev.delete_buffer(self.name);
    }
}

} // verus!
