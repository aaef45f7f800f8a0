use vstd::prelude::*;

use crate::native::{issued, preserves_bindings, Call, Gl};
use crate::tags::ShaderType;

verus! {

/// A shader object. It owns its handle: `release` gives it back, once.
pub struct Shader {
    id: u32,
}

impl Shader {
    pub closed spec fn handle(&self) -> u32 {
        self.id
    }

    /// The native handle.
    pub fn id(&self) -> (r: u32)
        ensures
            r == self.handle(),
    {
        self.id
    }

    /// Acquires a fresh shader handle for the stage `T`.
    pub fn new<T: ShaderType>(gl: &mut Gl) -> (r: Self)
        requires
            old(gl).wf(),
            old(gl).can_acquire(),
        ensures
            final(gl).wf(),
            r.handle() == old(gl).id_bound(),
            final(gl).id_bound() == r.handle() + 1,
            final(gl).log() == old(gl).log().push(Call::CreateShader { stage: T::stage(), id: r.handle() }),
            !old(gl).live().contains(r.handle()),
            final(gl).live() == old(gl).live().insert(r.handle()),
            preserves_bindings(*old(gl), *final(gl)),
    {
        let id = gl.fresh_handle();
        gl.acquire(Call::CreateShader { stage: T::selector(), id });
        Shader { id }
    }

    /// Releases the handle, at most once since it takes the shader.
    pub fn release(self, gl: &mut Gl)
        requires
            old(gl).wf(),
            old(gl).live().contains(self.handle()),
        ensures
            issued(*old(gl), *final(gl), seq![Call::DeleteShader { id: self.handle() }]),
            final(gl).live() == old(gl).live().remove(self.handle()),
    {
        gl.release(self.id, Call::DeleteShader { id: self.id });
    }

    /// Hands the shader its source text.
    pub fn source(&mut self, gl: &mut Gl, source: &str)
        requires
            old(gl).wf(),
        ensures
            *final(self) == *old(self),
            final(gl).log().last() matches Call::ShaderSource { id, source: text }
                && id == old(self).handle() && text@ == source@,
            issued(*old(gl), *final(gl), seq![final(gl).log().last()]),
            preserves_bindings(*old(gl), *final(gl)),
    {
        gl.issue(Call::ShaderSource { id: self.id, source: source.to_owned() });
    }

    /// Compiles the source. Whether that succeeded is for the native API to
    /// say: `check_status` turns its answer into a result.
    pub fn compile(&mut self, gl: &mut Gl)
        requires
            old(gl).wf(),
        ensures
            *final(self) == *old(self),
            issued(*old(gl), *final(gl), seq![Call::CompileShader { id: old(self).handle() }]),
            preserves_bindings(*old(gl), *final(gl)),
    {
        gl.issue(Call::CompileShader { id: self.id });
    }
}

} // verus!
