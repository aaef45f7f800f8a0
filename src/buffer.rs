use vstd::layout::size_of;
use vstd::prelude::*;

use core::marker::PhantomData;

use crate::context::{Context, MutContext};
use crate::native::{issued, preserves_bindings, Call, Category, Gl};
use crate::tags::BufferType;

verus! {

pub const STREAM_DRAW: u32 = 0x88E0;
pub const STREAM_READ: u32 = 0x88E1;
pub const STREAM_COPY: u32 = 0x88E2;
pub const STATIC_DRAW: u32 = 0x88E4;
pub const STATIC_READ: u32 = 0x88E5;
pub const STATIC_COPY: u32 = 0x88E6;
pub const DYNAMIC_DRAW: u32 = 0x88E8;
pub const DYNAMIC_READ: u32 = 0x88E9;
pub const DYNAMIC_COPY: u32 = 0x88EA;

/// How often uploaded data is expected to change.
#[derive(Clone, Copy, Debug, PartialEq, Eq, Structural)]
pub enum Freq {
    Stream,
    Static,
    Dynamic,
}

/// What uploaded data is expected to be used for.
#[derive(Clone, Copy, Debug, PartialEq, Eq, Structural)]
pub enum Mode {
    Draw,
    Read,
    Copy,
}

/// The native usage hint for a frequency and a use.
pub open spec fn usage_code(freq: Freq, mode: Mode) -> u32 {
    match (freq, mode) {
        (Freq::Stream, Mode::Draw) => STREAM_DRAW,
        (Freq::Stream, Mode::Read) => STREAM_READ,
        (Freq::Stream, Mode::Copy) => STREAM_COPY,
        (Freq::Static, Mode::Draw) => STATIC_DRAW,
        (Freq::Static, Mode::Read) => STATIC_READ,
        (Freq::Static, Mode::Copy) => STATIC_COPY,
        (Freq::Dynamic, Mode::Draw) => DYNAMIC_DRAW,
        (Freq::Dynamic, Mode::Read) => DYNAMIC_READ,
        (Freq::Dynamic, Mode::Copy) => DYNAMIC_COPY,
    }
}

/// No two pairs of frequency and use share a usage hint.
pub proof fn lemma_usage_code_injective(f1: Freq, m1: Mode, f2: Freq, m2: Mode)
    ensures
        usage_code(f1, m1) == usage_code(f2, m2) <==> (f1 == f2 && m1 == m2),
{
}

fn usage_selector(usage: (Freq, Mode)) -> (r: u32)
    ensures
        r == usage_code(usage.0, usage.1),
{
    match usage {
        (Freq::Stream, Mode::Draw) => STREAM_DRAW,
        (Freq::Stream, Mode::Read) => STREAM_READ,
        (Freq::Stream, Mode::Copy) => STREAM_COPY,
        (Freq::Static, Mode::Draw) => STATIC_DRAW,
        (Freq::Static, Mode::Read) => STATIC_READ,
        (Freq::Static, Mode::Copy) => STATIC_COPY,
        (Freq::Dynamic, Mode::Draw) => DYNAMIC_DRAW,
        (Freq::Dynamic, Mode::Read) => DYNAMIC_READ,
        (Freq::Dynamic, Mode::Copy) => DYNAMIC_COPY,
    }
}

/// A buffer object used under the target `E`, holding elements of type `T`
/// that live for `'a`. It owns its handle: `release` gives it back, once.
pub struct Buffer<'a, E: BufferType, T> {
    id: u32,
    _enum: PhantomData<E>,
    _data: Option<&'a [T]>,
}

impl<'a, E: BufferType, T> Buffer<'a, E, T> {
    pub closed spec fn handle(&self) -> u32 {
        self.id
    }

    /// The native handle.
    pub fn id(&self) -> (r: u32)
        ensures
            r == self.handle(),
    {
        self.id
    }

    /// Acquires a fresh buffer handle.
    pub fn new(gl: &mut Gl) -> (r: Self)
        requires
            old(gl).wf(),
            old(gl).can_acquire(),
        ensures
            final(gl).wf(),
            r.handle() == old(gl).id_bound(),
            final(gl).id_bound() == r.handle() + 1,
            final(gl).log() == old(gl).log().push(Call::GenBuffer { id: r.handle() }),
            !old(gl).live().contains(r.handle()),
            final(gl).live() == old(gl).live().insert(r.handle()),
            preserves_bindings(*old(gl), *final(gl)),
    {
        let id = gl.fresh_handle();
        gl.acquire(Call::GenBuffer { id });
        Buffer { id, _enum: PhantomData, _data: None }
    }

    /// Releases the handle. Taking the buffer by value makes this happen at
    /// most once.
    pub fn release(self, gl: &mut Gl)
        requires
            old(gl).wf(),
            old(gl).live().contains(self.handle()),
        ensures
            issued(*old(gl), *final(gl), seq![Call::DeleteBuffer { id: self.handle() }]),
            final(gl).live() == old(gl).live().remove(self.handle()),
    {
        gl.release(self.id, Call::DeleteBuffer { id: self.id });
    }

    /// Uploads `data` to the buffer, which must be current under `E`: the size
    /// given is the data's length in bytes.
    pub fn buffer_data(&'a self, gl: &mut Gl, data: &'a [T], usage: (Freq, Mode))
        requires
            old(gl).wf(),
            old(gl).bound(Category::Buffer(E::target())) == Some(self.handle()),
            data@.len() * size_of::<T>() <= usize::MAX,
        ensures
            issued(
                *old(gl),
                *final(gl),
                seq![
                    Call::BufferData {
                        target: E::target(),
                        size: (data@.len() * size_of::<T>()) as usize,
                        usage: usage_code(usage.0, usage.1),
                    },
                ],
            ),
            preserves_bindings(*old(gl), *final(gl)),
    {
        let usage = usage_selector(usage);
        let size = data.len() * core::mem::size_of::<T>();
        gl.issue(Call::BufferData { target: E::selector(), size, usage });
    }
}

impl<'a, E: BufferType, T> Context<Self> for Buffer<'a, E, T> {
    open spec fn subject(&self) -> &Self {
        self
    }

    open spec fn entry(&self) -> Seq<Call> {
        seq![Call::BindBuffer { target: E::target(), id: self.handle() }]
    }

    open spec fn scope_category(&self) -> Category {
        Category::Buffer(E::target())
    }

    open spec fn scope_handle(&self) -> u32 {
        self.handle()
    }

    fn context<R, F: FnOnce(&mut Gl, &Self) -> R>(&self, gl: &mut Gl, local: F) -> (r: R) {
        gl.issue(Call::BindBuffer { target: E::selector(), id: self.id });
        assert(Context::<Self>::subject(self) == self);
        local(gl, self)
    }
}

impl<'a, E: BufferType, T> MutContext<Self> for Buffer<'a, E, T> {
    open spec fn subject(&self) -> Self {
        *self
    }

    open spec fn entry(&self) -> Seq<Call> {
        seq![Call::BindBuffer { target: E::target(), id: self.handle() }]
    }

    open spec fn scope_category(&self) -> Category {
        Category::Buffer(E::target())
    }

    open spec fn scope_handle(&self) -> u32 {
        self.handle()
    }

    fn mut_context<R, F: FnOnce(&mut Gl, &mut Self) -> R>(&mut self, gl: &mut Gl, local: F) -> (r: R) {
        gl.issue(Call::BindBuffer { target: E::selector(), id: self.id });
        assert(MutContext::<Self>::subject(self) == *self);
        local(gl, self)
    }
}

} // verus!
