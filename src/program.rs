use vstd::prelude::*;

use crate::context::Context;
use crate::native::{issued, preserves_bindings, Call, Category, Gl};
use crate::shader::Shader;

verus! {

/// A program object. It owns its handle: `release` gives it back, once.
pub struct Program {
    id: u32,
}

impl Program {
    pub closed spec fn handle(&self) -> u32 {
        self.id
    }

    /// The native handle.
    pub fn id(&self) -> (r: u32)
        ensures
            r == self.handle(),
    {
        self.id
    }

    /// Acquires a fresh program handle.
    pub fn new(gl: &mut Gl) -> (r: Self)
        requires
            old(gl).wf(),
            old(gl).can_acquire(),
        ensures
            final(gl).wf(),
            r.handle() == old(gl).id_bound(),
            final(gl).id_bound() == r.handle() + 1,
            final(gl).log() == old(gl).log().push(Call::CreateProgram { id: r.handle() }),
            !old(gl).live().contains(r.handle()),
            final(gl).live() == old(gl).live().insert(r.handle()),
            preserves_bindings(*old(gl), *final(gl)),
    {
        let id = gl.fresh_handle();
        gl.acquire(Call::CreateProgram { id });
        Program { id }
    }

    /// Releases the handle, at most once since it takes the program.
    pub fn release(self, gl: &mut Gl)
        requires
            old(gl).wf(),
            old(gl).live().contains(self.handle()),
        ensures
            issued(*old(gl), *final(gl), seq![Call::DeleteProgram { id: self.handle() }]),
            final(gl).live() == old(gl).live().remove(self.handle()),
    {
        gl.release(self.id, Call::DeleteProgram { id: self.id });
    }

    /// Attaches a shader, to be linked into the program.
    pub fn attach(&mut self, gl: &mut Gl, shader: &Shader)
        requires
            old(gl).wf(),
        ensures
            *final(self) == *old(self),
            issued(
                *old(gl),
                *final(gl),
                seq![Call::AttachShader { program: old(self).handle(), shader: shader.handle() }],
            ),
            preserves_bindings(*old(gl), *final(gl)),
    {
        gl.issue(Call::AttachShader { program: self.id, shader: shader.id() });
    }

    /// Links the attached shaders. Whether that succeeded is for the native
    /// API to say: `check_status` turns its answer into a result.
    pub fn link(&mut self, gl: &mut Gl)
        requires
            old(gl).wf(),
        ensures
            *final(self) == *old(self),
            issued(*old(gl), *final(gl), seq![Call::LinkProgram { id: old(self).handle() }]),
            preserves_bindings(*old(gl), *final(gl)),
    {
        gl.issue(Call::LinkProgram { id: self.id });
    }
}

impl Context<Self> for Program {
    open spec fn subject(&self) -> &Self {
        self
    }

    open spec fn entry(&self) -> Seq<Call> {
        seq![Call::UseProgram { id: self.handle() }]
    }

    open spec fn scope_category(&self) -> Category {
        Category::Program
    }

    open spec fn scope_handle(&self) -> u32 {
        self.handle()
    }

    fn context<R, F: FnOnce(&mut Gl, &Self) -> R>(&self, gl: &mut Gl, local: F) -> (r: R) {
        gl.issue(Call::UseProgram { id: self.id });
        assert(Context::<Self>::subject(self) == self);
        local(gl, self)
    }
}

} // verus!
