use vstd::prelude::*;

use crate::context::{Context, MutContext};
use crate::native::{issued, preserves_bindings, Call, Category, Gl};
use crate::tags::{DrawElementsType, VertexAttribPointerType};

verus! {

pub const POINTS: u32 = 0x0000;
pub const LINES: u32 = 0x0001;
pub const LINE_LOOP: u32 = 0x0002;
pub const LINE_STRIP: u32 = 0x0003;
pub const TRIANGLES: u32 = 0x0004;
pub const TRIANGLE_STRIP: u32 = 0x0005;
pub const TRIANGLE_FAN: u32 = 0x0006;
pub const LINES_ADJACENCY: u32 = 0x000A;
pub const LINE_STRIP_ADJACENCY: u32 = 0x000B;
pub const TRIANGLES_ADJACENCY: u32 = 0x000C;
pub const TRIANGLE_STRIP_ADJACENCY: u32 = 0x000D;
pub const PATCHES: u32 = 0x000E;

/// A vertex array object. It owns its handle: `release` gives it back, once.
pub struct VertexArray {
    id: u32,
}

/// How drawn vertices are assembled into primitives.
#[derive(Clone, Copy, Debug, PartialEq, Eq, Structural)]
pub enum DrawMode {
    Points,
    LineStrip,
    LineLoop,
    Lines,
    LineStripAdjacency,
    LinesAdjacency,
    TriangleStrip,
    TriangleFan,
    Triangles,
    TriangleStripAdjacency,
    TrianglesAdjacency,
    Patches,
}

/// The native selector of a draw mode.
pub open spec fn mode_code(mode: DrawMode) -> u32 {
    match mode {
        DrawMode::Points => POINTS,
        DrawMode::LineStrip => LINE_STRIP,
        DrawMode::LineLoop => LINE_LOOP,
        DrawMode::Lines => LINES,
        DrawMode::LineStripAdjacency => LINE_STRIP_ADJACENCY,
        DrawMode::LinesAdjacency => LINES_ADJACENCY,
        DrawMode::TriangleStrip => TRIANGLE_STRIP,
        DrawMode::TriangleFan => TRIANGLE_FAN,
        DrawMode::Triangles => TRIANGLES,
        DrawMode::TriangleStripAdjacency => TRIANGLE_STRIP_ADJACENCY,
        DrawMode::TrianglesAdjacency => TRIANGLES_ADJACENCY,
        DrawMode::Patches => PATCHES,
    }
}

/// No two draw modes share a selector.
pub proof fn lemma_mode_code_injective(a: DrawMode, b: DrawMode)
    ensures
        mode_code(a) == mode_code(b) <==> a == b,
{
}

impl DrawMode {
    fn to_enum(self) -> (r: u32)
        ensures
            r == mode_code(self),
    {
        match self {
            DrawMode::Points => POINTS,
            DrawMode::LineStrip => LINE_STRIP,
            DrawMode::LineLoop => LINE_LOOP,
            DrawMode::Lines => LINES,
            DrawMode::LineStripAdjacency => LINE_STRIP_ADJACENCY,
            DrawMode::LinesAdjacency => LINES_ADJACENCY,
            DrawMode::TriangleStrip => TRIANGLE_STRIP,
            DrawMode::TriangleFan => TRIANGLE_FAN,
            DrawMode::Triangles => TRIANGLES,
            DrawMode::TriangleStripAdjacency => TRIANGLE_STRIP_ADJACENCY,
            DrawMode::TrianglesAdjacency => TRIANGLES_ADJACENCY,
            DrawMode::Patches => PATCHES,
        }
    }
}

impl VertexArray {
    pub closed spec fn handle(&self) -> u32 {
        self.id
    }

    /// This vertex array is the current one.
    pub open spec fn is_bound(&self, gl: Gl) -> bool {
        gl.bound(Category::VertexArray) == Some(self.handle())
    }

    /// The native handle.
    pub fn id(&self) -> (r: u32)
        ensures
            r == self.handle(),
    {
        self.id
    }

    /// Acquires a fresh vertex array handle.
    pub fn new(gl: &mut Gl) -> (r: Self)
        requires
            old(gl).wf(),
            old(gl).can_acquire(),
        ensures
            final(gl).wf(),
            r.handle() == old(gl).id_bound(),
            final(gl).id_bound() == r.handle() + 1,
            final(gl).log() == old(gl).log().push(Call::GenVertexArray { id: r.handle() }),
            !old(gl).live().contains(r.handle()),
            final(gl).live() == old(gl).live().insert(r.handle()),
            preserves_bindings(*old(gl), *final(gl)),
    {
        let id = gl.fresh_handle();
        gl.acquire(Call::GenVertexArray { id });
        VertexArray { id }
    }

    /// Releases the handle, at most once since it takes the vertex array.
    pub fn release(self, gl: &mut Gl)
        requires
            old(gl).wf(),
            old(gl).live().contains(self.handle()),
        ensures
            issued(*old(gl), *final(gl), seq![Call::DeleteVertexArray { id: self.handle() }]),
            final(gl).live() == old(gl).live().remove(self.handle()),
    {
        gl.release(self.id, Call::DeleteVertexArray { id: self.id });
    }

    /// Describes attribute `index` of the current vertex array as elements of
    /// type `T`, `stride` elements apart and starting `offset` bytes in, and
    /// enables it. The stride is given to the native API in bytes.
    pub fn bind_vertex_attrib_pointer<T: VertexAttribPointerType>(
        &self,
        gl: &mut Gl,
        index: u32,
        normalized: bool,
        stride: usize,
        offset: usize,
    )
        requires
            old(gl).wf(),
            self.is_bound(*old(gl)),
            stride * T::width() <= usize::MAX,
        ensures
            issued(
                *old(gl),
                *final(gl),
                seq![
                    Call::VertexAttribPointer {
                        index,
                        size: T::width(),
                        kind: T::kind(),
                        normalized,
                        stride: (stride * T::width()) as usize,
                        offset,
                    },
                    Call::EnableVertexAttribArray { index },
                ],
            ),
            preserves_bindings(*old(gl), *final(gl)),
    {
        let size = T::size();
        let ghost g0 = *gl;
        gl.issue(
            Call::VertexAttribPointer {
                index,
                size,
                kind: T::selector(),
                normalized,
                stride: stride * size,
                offset,
            },
        );
        let ghost g1 = *gl;
        gl.issue(Call::EnableVertexAttribArray { index });
        assert(gl.log() == g0.log() + seq![g1.log().last(), gl.log().last()]);
    }

    /// Draws `count` vertices from `first` on with the current vertex array.
    pub fn draw_arrays(&self, gl: &mut Gl, mode: DrawMode, first: u32, count: u32)
        requires
            old(gl).wf(),
            self.is_bound(*old(gl)),
        ensures
            issued(*old(gl), *final(gl), seq![Call::DrawArrays { mode: mode_code(mode), first, count }]),
            preserves_bindings(*old(gl), *final(gl)),
    {
        let mode = mode.to_enum();
        gl.issue(Call::DrawArrays { mode, first, count });
    }

    /// Draws `count` indexed vertices, with indices of type `T`, with the
    /// current vertex array.
    pub fn draw_elements<T: DrawElementsType>(&self, gl: &mut Gl, mode: DrawMode, count: u32)
        requires
            old(gl).wf(),
            self.is_bound(*old(gl)),
        ensures
            issued(
                *old(gl),
                *final(gl),
                seq![Call::DrawElements { mode: mode_code(mode), count, kind: T::kind() }],
            ),
            preserves_bindings(*old(gl), *final(gl)),
    {
        let mode = mode.to_enum();
        gl.issue(Call::DrawElements { mode, count, kind: T::selector() });
    }
}

impl Context<Self> for VertexArray {
    open spec fn subject(&self) -> &Self {
        self
    }

    open spec fn entry(&self) -> Seq<Call> {
        seq![Call::BindVertexArray { id: self.handle() }]
    }

    open spec fn scope_category(&self) -> Category {
        Category::VertexArray
    }

    open spec fn scope_handle(&self) -> u32 {
        self.handle()
    }

    fn context<R, F: FnOnce(&mut Gl, &Self) -> R>(&self, gl: &mut Gl, local: F) -> (r: R) {
        gl.issue(Call::BindVertexArray { id: self.id });
        assert(Context::<Self>::subject(self) == self);
        local(gl, self)
    }
}

impl MutContext<Self> for VertexArray {
    open spec fn subject(&self) -> Self {
        *self
    }

    open spec fn entry(&self) -> Seq<Call> {
        seq![Call::BindVertexArray { id: self.handle() }]
    }

    open spec fn scope_category(&self) -> Category {
        Category::VertexArray
    }

    open spec fn scope_handle(&self) -> u32 {
        self.handle()
    }

    fn mut_context<R, F: FnOnce(&mut Gl, &mut Self) -> R>(&mut self, gl: &mut Gl, local: F) -> (r: R) {
        gl.issue(Call::BindVertexArray { id: self.id });
        assert(MutContext::<Self>::subject(self) == *self);
        local(gl, self)
    }
}

} // verus!
