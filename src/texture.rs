use vstd::prelude::*;
use vstd::string::*;

use core::marker::PhantomData;

use crate::context::Context;
use crate::native::{issued, preserves_bindings, Call, Category, Gl};
use crate::tags::{
    TextureTarget, TEXTURE_1D, TEXTURE_1D_ARRAY, TEXTURE_2D, TEXTURE_2D_ARRAY, TEXTURE_3D,
    TEXTURE_CUBE_MAP, TEXTURE_CUBE_MAP_ARRAY,
};

verus! {

pub const TEXTURE0: u32 = 0x84C0;

/// Whether mipmaps are defined for textures of a target: only for the
/// dimensional ones, not for rectangle, multisample or buffer textures.
pub open spec fn has_mipmaps(target: u32) -> bool {
    target == TEXTURE_1D || target == TEXTURE_2D || target == TEXTURE_3D || target == TEXTURE_1D_ARRAY
        || target == TEXTURE_2D_ARRAY || target == TEXTURE_CUBE_MAP || target == TEXTURE_CUBE_MAP_ARRAY
}

/// The error reported for an operation that a texture target does not have.
pub open spec fn invalid_operation(label: Seq<char>) -> Seq<char> {
    "Invalid operation for texture type: "@ + label
}

/// A texture object used under the target `E`. It owns its handle: `release`
/// gives it back, once.
pub struct Texture<E: TextureTarget> {
    _enum: PhantomData<E>,
    id: u32,
}

impl<E: TextureTarget> Texture<E> {
    pub closed spec fn handle(&self) -> u32 {
        self.id
    }

    /// This texture is the current one under `E`.
    pub open spec fn is_bound(&self, gl: Gl) -> bool {
        gl.bound(Category::Texture(E::target())) == Some(self.handle())
    }

    /// The native handle.
    pub fn id(&self) -> (r: u32)
        ensures
            r == self.handle(),
    {
        self.id
    }

    /// Acquires a fresh texture handle.
    pub fn new(gl: &mut Gl) -> (r: Self)
        requires
            old(gl).wf(),
            old(gl).can_acquire(),
        ensures
            final(gl).wf(),
            r.handle() == old(gl).id_bound(),
            final(gl).id_bound() == r.handle() + 1,
            final(gl).log() == old(gl).log().push(Call::GenTexture { id: r.handle() }),
            !old(gl).live().contains(r.handle()),
            final(gl).live() == old(gl).live().insert(r.handle()),
            preserves_bindings(*old(gl), *final(gl)),
    {
        let id = gl.fresh_handle();
        gl.acquire(Call::GenTexture { id });
        Texture { _enum: PhantomData, id }
    }

    /// Releases the handle, at most once since it takes the texture.
    pub fn release(self, gl: &mut Gl)
        requires
            old(gl).wf(),
            old(gl).live().contains(self.handle()),
        ensures
            issued(*old(gl), *final(gl), seq![Call::DeleteTexture { id: self.handle() }]),
            final(gl).live() == old(gl).live().remove(self.handle()),
    {
        gl.release(self.id, Call::DeleteTexture { id: self.id });
    }

    /// Selects texture unit `active` and makes this texture current there.
    pub fn bind(&self, gl: &mut Gl, active: u32)
        requires
            old(gl).wf(),
            active <= u32::MAX - TEXTURE0,
        ensures
            issued(
                *old(gl),
                *final(gl),
                seq![
                    Call::ActiveTexture { unit: (TEXTURE0 + active) as u32 },
                    Call::BindTexture { target: E::target(), id: self.handle() },
                ],
            ),
            self.is_bound(*final(gl)),
            forall|k: Category|
                k != Category::Texture(E::target()) ==> #[trigger] final(gl).bound(k) == old(gl).bound(k),
    {
        let ghost g0 = *gl;
        gl.issue(Call::ActiveTexture { unit: TEXTURE0 + active });
        let ghost g1 = *gl;
        gl.issue(Call::BindTexture { target: E::selector(), id: self.id });
        assert(gl.log() == g0.log() + seq![g1.log().last(), gl.log().last()]);
    }

    /// Generates the mipmaps of the current texture, where its target has
    /// them; otherwise reports the target and issues nothing.
    pub fn generate_mipmap(&self, gl: &mut Gl) -> (r: Result<(), String>)
        requires
            old(gl).wf(),
            self.is_bound(*old(gl)),
        ensures
            r is Ok <==> has_mipmaps(E::target()),
            r is Ok ==> issued(*old(gl), *final(gl), seq![Call::GenerateMipmap { target: E::target() }]),
            r matches Err(msg) ==> msg@ == invalid_operation(E::label()) && *final(gl) == *old(gl),
            preserves_bindings(*old(gl), *final(gl)),
    {
        let target = E::selector();
        if target == TEXTURE_1D || target == TEXTURE_2D || target == TEXTURE_3D || target
            == TEXTURE_1D_ARRAY || target == TEXTURE_2D_ARRAY || target == TEXTURE_CUBE_MAP
            || target == TEXTURE_CUBE_MAP_ARRAY {
            gl.issue(Call::GenerateMipmap { target });
            Ok(())
        } else {
            let mut msg = String::from_str("Invalid operation for texture type: ");
            msg.append(E::name());
            Err(msg)
        }
    }
}

impl<E: TextureTarget> Context<Self> for Texture<E> {
    open spec fn subject(&self) -> &Self {
        self
    }

    open spec fn entry(&self) -> Seq<Call> {
        seq![
            Call::ActiveTexture { unit: TEXTURE0 },
            Call::BindTexture { target: E::target(), id: self.handle() },
        ]
    }

    open spec fn scope_category(&self) -> Category {
        Category::Texture(E::target())
    }

    open spec fn scope_handle(&self) -> u32 {
        self.handle()
    }

    fn context<R, F: FnOnce(&mut Gl, &Self) -> R>(&self, gl: &mut Gl, local: F) -> (r: R) {
        self.bind(gl, 0);
        assert(Context::<Self>::subject(self) == self);
        local(gl, self)
    }
}

} // verus!
