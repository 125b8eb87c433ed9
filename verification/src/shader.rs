//! Shader stages and owned shader objects.

use crate::device::Device;
use crate::device::ShaderLog;
use crate::device::ShaderSlot;
use crate::device::MAX_SHARED_OBJECTS;
use crate::glenum::COMPILE_STATUS;
use crate::glenum::FRAGMENT_SHADER;
use crate::glenum::VERTEX_SHADER;
use crate::status_log::get_info_log;
use vstd::prelude::*;
use vstd::utf8::valid_utf8;

verus! {

/// Shader types.
#[derive(Clone, Copy, PartialEq, Eq, Structural, Debug)]
pub enum ShaderType {
    /// A vertex-stage shader.
    VertexShader,
    /// A fragment-stage shader.
    FragmentShader,
}

impl ShaderType {
    /// The numeric constant the underlying API uses for this stage.
    pub open spec fn as_glenum(self) -> u32 {
        match self {
            ShaderType::VertexShader => VERTEX_SHADER,
            ShaderType::FragmentShader => FRAGMENT_SHADER,
        }
    }

    /// Convert a ShaderType into its corresponding numeric value.
    pub fn to_glenum(&self) -> (r: u32)
        ensures
            r == self.as_glenum(),
    {
        match *self {
            ShaderType::VertexShader => VERTEX_SHADER,
            ShaderType::FragmentShader => FRAGMENT_SHADER,
        }
    }
}

/// An owned shader object: the wrapper's lifetime governs the lifetime of
/// the underlying object, whose release consumes the wrapper.
#[derive(Debug)]
pub struct Shader {
    name: u32,
    type_: ShaderType,
}

impl Shader {
    /// The wrapped object name.
    pub closed spec fn id(self) -> u32 {
        self.name
    }

    /// The stage this wrapper was constructed for.
    pub closed spec fn stage(self) -> ShaderType {
        self.type_
    }

    /// The wrapper refers to a live shader object of `dev`.
    pub open spec fn valid(self, dev: Device) -> bool {
        dev.shader_live(self.id())
    }

    /// Wrap an existing shader object.  The name must denote a live shader
    /// object of `dev`: handing in anything else is caller misuse, excluded
    /// by precondition rather than reported at run time.
    pub fn from_name(dev: &Device, name: u32, type_: ShaderType) -> (r: Shader)
        requires
            dev.shader_live(name),
        ensures
            r.id() == name,
            r.stage() == type_,
            r.valid(*dev),
    {
        Shader::new_raw(name, type_)
    }

    fn new_raw(id: u32, type_: ShaderType) -> (r: Shader)
        ensures
            r.id() == id,
            r.stage() == type_,
    {
        Shader { name: id, type_ }
    }

    /// Returns the name (id) of the shader.
    pub fn name(&self) -> (r: u32)
        ensures
            r == self.id(),
    {
        self.name
    }

    /// Compile a shader.
    ///
    /// Creates a fresh shader object for `type_`, submits `source`, compiles
    /// it, and runs the status/log protocol against the compile status.  On
    /// success the owning `Shader` is returned; on failure the complete
    /// diagnostic log (possibly empty, always well-formed text — the context
    /// invariant holds the driver to that) is returned and the partially
    /// created object is released before returning, so a failed compile
    /// leaks nothing.
    pub fn compile(dev: &mut Device, source: &str, type_: ShaderType) -> (r: Result<
        Shader,
        Vec<u8>,
    >)
        requires
            old(dev).wf(),
            old(dev).shaders@.len() < MAX_SHARED_OBJECTS,
        ensures
            final(dev).wf(),
            final(dev).shaders@.len() == old(dev).shaders@.len() + 1,
            forall|i: int|
                0 <= i < old(dev).shaders@.len() ==> final(dev).shaders@[i] == old(dev).shaders@[i],
            *final(dev) == (Device { shaders: final(dev).shaders, ..*old(dev) }),
            (r is Ok) <==> old(dev).compile_ok,
            match r {
                Ok(shader) => {
                    &&& shader.id() == 2 * old(dev).shaders@.len() + 1
                    &&& !old(dev).shader_valid(shader.id())
                    &&& !old(dev).program_valid(shader.id())
                    &&& !final(dev).program_valid(shader.id())
                    &&& shader.stage() == type_
                    &&& shader.valid(*final(dev))
                    &&& final(dev).shader_at(shader.id()).compiled_ok
                    &&& final(dev).shader_at(shader.id()).stage == type_.as_glenum()
                    &&& final(dev).shader_at(shader.id()).source@ == source@
                    &&& final(dev).shader_at(shader.id()).log@ == old(dev).compile_log@
                },
                Err(log) => {
                    &&& log@ == old(dev).compile_log@
                    &&& valid_utf8(log@)
                    &&& !final(dev).shader_live((2 * old(dev).shaders@.len() + 1) as u32)
                },
            },
    {
        let gltype = type_.to_glenum();
        let shader = dev.create_shader(gltype);

        dev.shader_source(shader, source);
        dev.compile_shader(shader);

        let queries = ShaderLog { dev: &*dev, object: shader };
        match get_info_log(&queries, COMPILE_STATUS) {
            Some(s) => {
                dev.delete_shader(shader);
                Err(s)
            },
            None => Ok(Shader::new_raw(shader, type_)),
        }
    }

    /// Law: a handle the context has never handed out — such as the one a
    /// successful [`Shader::compile`] wraps — differs from the handle of
    /// every wrapper that was valid beforehand, so fresh wrappers never
    /// alias existing ones.
    pub proof fn lemma_fresh_handle_is_distinct(dev: Device, fresh: u32, existing: Shader)
        requires
            !dev.shader_valid(fresh),
            existing.valid(dev),
        ensures
            existing.id() != fresh,
    {
    }

    /// Law: releasing one shader leaves every wrapper with a different
    /// handle valid; together with the freshness of created handles, a
    /// sequence of constructions and releases releases each handle exactly
    /// once and never touches another wrapper's object.
    pub proof fn lemma_release_preserves_others(
        pre: Device,
        post: Device,
        released: Shader,
        other: Shader,
    )
        requires
            released.valid(pre),
            other.valid(pre),
            other.id() != released.id(),
            post.shaders@ == pre.shaders@.update(
                (released.id() - 1) / 2,
                (ShaderSlot { live: false, ..pre.shader_at(released.id()) }),
            ),
        ensures
            other.valid(post),
    {
    }

    /// Release the shader object.  The wrapper is consumed, so the release
    /// for this handle is issued exactly once.
    pub fn delete(self, dev: &mut Device)
        requires
            old(dev).wf(),
            self.valid(*old(dev)),
        ensures
            final(dev).wf(),
            !final(dev).shader_live(self.id()),
            final(dev).shaders@ == old(dev).shaders@.update(
                (self.id() - 1) / 2,
                (ShaderSlot { live: false, ..old(dev).shader_at(self.id()) }),
            ),
            *final(dev) == (Device { shaders: final(dev).shaders, ..*old(dev) }),
    {
        dev.delete_shader(self.name);
    }
}

} // verus!
