use vstd::prelude::*;

verus! {

/// A family of objects of which the native API keeps one current object.
#[derive(Clone, Copy, Debug, PartialEq, Eq, Structural)]
pub enum Category {
    /// Buffers bound to one buffer target.
    Buffer(u32),
    /// The program in use.
    Program,
    /// The bound vertex array.
    VertexArray,
    /// Textures bound to one texture target.
    Texture(u32),
}

/// One call into the native graphics API, with the values it is given.
#[derive(Clone, Debug, PartialEq, Eq)]
pub enum Call {
    GenBuffer { id: u32 },
    DeleteBuffer { id: u32 },
    BindBuffer { target: u32, id: u32 },
    BufferData { target: u32, size: usize, usage: u32 },
    CreateShader { stage: u32, id: u32 },
    DeleteShader { id: u32 },
    ShaderSource { id: u32, source: String },
    CompileShader { id: u32 },
    CreateProgram { id: u32 },
    DeleteProgram { id: u32 },
    AttachShader { program: u32, shader: u32 },
    LinkProgram { id: u32 },
    UseProgram { id: u32 },
    GenTexture { id: u32 },
    DeleteTexture { id: u32 },
    ActiveTexture { unit: u32 },
    BindTexture { target: u32, id: u32 },
    GenerateMipmap { target: u32 },
    GenVertexArray { id: u32 },
    DeleteVertexArray { id: u32 },
    BindVertexArray { id: u32 },
    VertexAttribPointer {
        index: u32,
        size: usize,
        kind: u32,
        normalized: bool,
        stride: usize,
        offset: usize,
    },
    EnableVertexAttribArray { index: u32 },
    DrawArrays { mode: u32, first: u32, count: u32 },
    DrawElements { mode: u32, count: u32, kind: u32 },
}

/// The handle that a call acquires, if it acquires one.
pub open spec fn acquired(c: Call) -> Option<u32> {
    match c {
        Call::GenBuffer { id } => Some(id),
        Call::CreateShader { id, .. } => Some(id),
        Call::CreateProgram { id } => Some(id),
        Call::GenTexture { id } => Some(id),
        Call::GenVertexArray { id } => Some(id),
        _ => None,
    }
}

/// The handle that a call releases, if it releases one.
pub open spec fn released(c: Call) -> Option<u32> {
    match c {
        Call::DeleteBuffer { id } => Some(id),
        Call::DeleteShader { id } => Some(id),
        Call::DeleteProgram { id } => Some(id),
        Call::DeleteTexture { id } => Some(id),
        Call::DeleteVertexArray { id } => Some(id),
        _ => None,
    }
}

/// The category and handle that a call makes current, if it binds one.
pub open spec fn binding(c: Call) -> Option<(Category, u32)> {
    match c {
        Call::BindBuffer { target, id } => Some((Category::Buffer(target), id)),
        Call::UseProgram { id } => Some((Category::Program, id)),
        Call::BindVertexArray { id } => Some((Category::VertexArray, id)),
        Call::BindTexture { target, id } => Some((Category::Texture(target), id)),
        _ => None,
    }
}

/// Every handle that a sequence of calls has acquired.
pub open spec fn acquired_in(s: Seq<Call>) -> Set<u32>
    decreases s.len(),
{
    if s.len() == 0 {
        Set::empty()
    } else {
        let prev = acquired_in(s.drop_last());
        match acquired(s.last()) {
            Some(id) => prev.insert(id),
            None => prev,
        }
    }
}

/// The handles acquired and not yet released after a sequence of calls.
pub open spec fn live_in(s: Seq<Call>) -> Set<u32>
    decreases s.len(),
{
    if s.len() == 0 {
        Set::empty()
    } else {
        let prev = live_in(s.drop_last());
        match (acquired(s.last()), released(s.last())) {
            (Some(id), _) => prev.insert(id),
            (_, Some(id)) => prev.remove(id),
            _ => prev,
        }
    }
}

/// A sequence of calls never acquires a handle twice and releases only live
/// handles: no handle is shared, and none is released twice.
pub open spec fn ownership_sound(s: Seq<Call>) -> bool
    decreases s.len(),
{
    s.len() == 0 || {
        let prev = s.drop_last();
        &&& ownership_sound(prev)
        &&& (acquired(s.last()) matches Some(id) ==> !acquired_in(prev).contains(id))
        &&& (released(s.last()) matches Some(id) ==> live_in(prev).contains(id))
    }
}

/// How many calls of a sequence acquire a handle.
pub open spec fn count_acquired(s: Seq<Call>) -> nat
    decreases s.len(),
{
    if s.len() == 0 {
        0
    } else {
        count_acquired(s.drop_last()) + if acquired(s.last()) is Some { 1nat } else { 0nat }
    }
}

/// How many calls of a sequence release a handle.
pub open spec fn count_released(s: Seq<Call>) -> nat
    decreases s.len(),
{
    if s.len() == 0 {
        0
    } else {
        count_released(s.drop_last()) + if released(s.last()) is Some { 1nat } else { 0nat }
    }
}

/// The object current in a category after a sequence of calls: the one the
/// last binding call for that category named, unless it was released since.
pub open spec fn bound_in(s: Seq<Call>, cat: Category) -> Option<u32>
    decreases s.len(),
{
    if s.len() == 0 {
        None
    } else {
        bound_after(bound_in(s.drop_last(), cat), s.last(), cat)
    }
}

/// One step of `bound_in`: what is current in `cat` once `c` follows a state
/// in which `prev` was.
pub open spec fn bound_after(prev: Option<u32>, c: Call, cat: Category) -> Option<u32> {
    match (binding(c), released(c)) {
        (Some((k, id)), _) => if k == cat { Some(id) } else { prev },
        (_, Some(id)) => if prev == Some(id) { None } else { prev },
        _ => prev,
    }
}

/// `after` is `before` with `calls` issued on top, none of which acquires a
/// handle.
pub open spec fn issued(before: Gl, after: Gl, calls: Seq<Call>) -> bool {
    &&& after.wf()
    &&& after.log() == before.log() + calls
    &&& after.id_bound() == before.id_bound()
}

/// Every category has the same current object in `after` as in `before`.
pub open spec fn preserves_bindings(before: Gl, after: Gl) -> bool {
    forall|cat: Category| #[trigger] after.bound(cat) == before.bound(cat)
}

/// The native API as this library drives it: every call issued so far, in
/// order, and the next handle to hand out.
pub struct Gl {
    calls: Vec<Call>,
    next: u32,
}

impl Gl {
    /// The calls issued so far.
    pub closed spec fn log(&self) -> Seq<Call> {
        self.calls@
    }

    /// Every handle handed out so far is below this bound.
    pub closed spec fn id_bound(&self) -> u32 {
        self.next
    }

    /// The handles currently owned by some wrapper.
    pub open spec fn live(&self) -> Set<u32> {
        live_in(self.log())
    }

    /// The object current in a category.
    pub open spec fn bound(&self, cat: Category) -> Option<u32> {
        bound_in(self.log(), cat)
    }

    /// No handle has been handed out twice or released twice, and every
    /// handle handed out is nonzero and below `id_bound`.
    pub open spec fn wf(&self) -> bool {
        &&& ownership_sound(self.log())
        &&& 0 < self.id_bound()
        &&& forall|id: u32| #[trigger] acquired_in(self.log()).contains(id) ==> 0 < id < self.id_bound()
    }

    /// Another handle can still be handed out.
    pub open spec fn can_acquire(&self) -> bool {
        self.id_bound() < u32::MAX
    }

    /// A native API on which nothing has been called yet.
    pub fn new() -> (r: Gl)
        ensures
            r.wf(),
            r.log() == Seq::<Call>::empty(),
            r.can_acquire(),
    {
        Gl { calls: Vec::new(), next: 1 }
    }

    /// The calls issued so far, oldest first.
    pub fn calls(&self) -> (r: &Vec<Call>)
        ensures
            r@ == self.log(),
    {
        &self.calls
    }

    /// Whether another handle can still be handed out.
    pub fn has_free_handle(&self) -> (r: bool)
        ensures
            r == self.can_acquire(),
    {
        self.next < u32::MAX
    }

    /// Issues a call that neither acquires nor releases a handle.
    pub(crate) fn issue(&mut self, c: Call)
        requires
            old(self).wf(),
            acquired(c) is None,
            released(c) is None,
        ensures
            issued(*old(self), *final(self), seq![c]),
            forall|cat: Category| #[trigger] final(self).bound(cat) == bound_after(old(self).bound(cat), c, cat),
    {
        let ghost s = self.calls@;
        self.calls.push(c);
        assert(self.calls@.drop_last() == s);
        assert(acquired_in(self.calls@) == acquired_in(s));
        assert(s + seq![c] == s.push(c));
    }

    /// The handle that the next acquiring call must name.
    pub(crate) fn fresh_handle(&self) -> (id: u32)
        ensures
            id == self.id_bound(),
    {
        self.next
    }

    /// Issues a call that acquires the fresh handle.
    pub(crate) fn acquire(&mut self, c: Call)
        requires
            old(self).wf(),
            old(self).can_acquire(),
            acquired(c) == Some(old(self).id_bound()),
        ensures
            final(self).wf(),
            final(self).id_bound() == old(self).id_bound() + 1,
            final(self).log() == old(self).log().push(c),
            !old(self).live().contains(old(self).id_bound()),
            final(self).live() == old(self).live().insert(old(self).id_bound()),
            preserves_bindings(*old(self), *final(self)),
    {
        let ghost s = self.calls@;
        proof {
            lemma_live_acquired(s);
        }
        self.calls.push(c);
        self.next = self.next + 1;
        assert(self.calls@.drop_last() == s);
        assert forall|cat: Category| #[trigger] self.bound(cat) == old(self).bound(cat) by {
            assert(bound_in(self.calls@, cat) == bound_after(bound_in(s, cat), c, cat));
        }
    }

    /// Issues the call that releases a live handle.
    pub(crate) fn release(&mut self, id: u32, c: Call)
        requires
            old(self).wf(),
            old(self).live().contains(id),
            released(c) == Some(id),
            acquired(c) is None,
        ensures
            issued(*old(self), *final(self), seq![c]),
            final(self).live() == old(self).live().remove(id),
    {
        let ghost s = self.calls@;
        self.calls.push(c);
        assert(self.calls@.drop_last() == s);
        assert(acquired_in(self.calls@) == acquired_in(s));
        assert(s + seq![c] == s.push(c));
    }
}

/// Every live handle has been acquired.
pub proof fn lemma_live_acquired(s: Seq<Call>)
    ensures
        live_in(s).subset_of(acquired_in(s)),
    decreases s.len(),
{
    if s.len() > 0 {
        lemma_live_acquired(s.drop_last());
    }
}

/// Every handle acquired is either still live or has been released exactly
/// once: after a sound sequence of calls, the acquisitions equal the releases
/// plus the live handles. Acquiring N handles and releasing each of them
/// therefore issues exactly N releases and leaves nothing live.
pub proof fn lemma_handles_accounted(s: Seq<Call>)
    requires
        ownership_sound(s),
    ensures
        live_in(s).finite(),
        count_acquired(s) == count_released(s) + live_in(s).len(),
    decreases s.len(),
{
    if s.len() > 0 {
        let prev = s.drop_last();
        lemma_handles_accounted(prev);
        lemma_live_acquired(prev);
    }
}

/// Binding is sticky: calls that bind nothing in `cat` and do not release
/// the object current there leave that object current. Leaving a scope
/// restores nothing.
pub proof fn lemma_binding_sticky(s: Seq<Call>, t: Seq<Call>, cat: Category)
    requires
        forall|i: int|
            0 <= i < t.len() ==> !(#[trigger] binding(t[i]) matches Some((k, _)) && k == cat),
        forall|i: int|
            0 <= i < t.len() ==> (bound_in(s, cat) matches Some(id) ==> #[trigger] released(t[i]) != Some(id)),
    ensures
        bound_in(s + t, cat) == bound_in(s, cat),
    decreases t.len(),
{
    if t.len() > 0 {
        let u = t.drop_last();
        lemma_binding_sticky(s, u, cat);
        assert((s + t).drop_last() == s + u);
        assert((s + t).last() == t[t.len() - 1]);
    }
}

} // verus!
