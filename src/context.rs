//! Scopes: "make this object current, then run this block against it" as one
//! operation, so that the block can rely on the binding.
use vstd::prelude::*;

use crate::native::{Call, Category, Gl};

verus! {

/// What holds when a scope's block starts: `calls` have been issued on top of
/// `before`, and they left the object `id` current in `cat`.
pub open spec fn entered(before: Gl, after: Gl, calls: Seq<Call>, cat: Category, id: u32) -> bool {
    &&& after.wf()
    &&& after.log() == before.log() + calls
    &&& after.id_bound() == before.id_bound()
    &&& after.bound(cat) == Some(id)
    &&& forall|k: Category| k != cat ==> #[trigger] after.bound(k) == before.bound(k)
}

/// A scope with read-only access to what it makes current.
///
/// Entering issues the calls of `entry` every time, whether or not the object
/// was current already, and then runs the block. Nothing is restored when the
/// block returns: the binding stays as the block left it.
pub trait Context<T> {
    /// What the block is handed.
    spec fn subject(&self) -> &T;

    /// The calls that entering issues, in order.
    spec fn entry(&self) -> Seq<Call>;

    /// The category that entering makes `scope_handle` current in.
    spec fn scope_category(&self) -> Category;

    spec fn scope_handle(&self) -> u32;

    fn context<R, F: FnOnce(&mut Gl, &T) -> R>(&self, gl: &mut Gl, local: F) -> (r: R)
        requires
            old(gl).wf(),
            forall|g: &mut Gl|
                entered(*old(gl), *g, self.entry(), self.scope_category(), self.scope_handle())
                    ==> #[trigger] local.requires((g, self.subject())),
        ensures
            exists|g: &mut Gl|
                entered(*old(gl), *g, self.entry(), self.scope_category(), self.scope_handle())
                    && *final(g) == *final(gl) && #[trigger] local.ensures((g, self.subject()), r),
    ;
}

/// A scope on a value whose container grants exclusive access itself (a lock
/// or a cell): the block is handed the contained value, not the container.
pub trait ContextMut<T> {
    fn context_mut<R, F: FnOnce(&mut T) -> R>(&self, local: F) -> (r: R)
        requires
            forall|t: &mut T| #[trigger] local.requires((t,)),
        ensures
            exists|t: &mut T| #[trigger] local.ensures((t,), r),
    ;
}

/// A scope with exclusive access to what it makes current, held for the
/// whole block.
///
/// Entering issues the calls of `entry` every time, and nothing is restored
/// when the block returns.
pub trait MutContext<T> {
    /// What the block is handed.
    spec fn subject(&self) -> T;

    /// The calls that entering issues, in order.
    spec fn entry(&self) -> Seq<Call>;

    /// The category that entering makes `scope_handle` current in.
    spec fn scope_category(&self) -> Category;

    spec fn scope_handle(&self) -> u32;

    fn mut_context<R, F: FnOnce(&mut Gl, &mut T) -> R>(&mut self, gl: &mut Gl, local: F) -> (r: R)
        requires
            old(gl).wf(),
            forall|g: &mut Gl, t: &mut T|
                entered(*old(gl), *g, old(self).entry(), old(self).scope_category(), old(self).scope_handle())
                    && *t == old(self).subject() ==> #[trigger] local.requires((g, t)),
        ensures
            exists|g: &mut Gl, t: &mut T|
                entered(*old(gl), *g, old(self).entry(), old(self).scope_category(), old(self).scope_handle())
                    && *t == old(self).subject() && *final(g) == *final(gl)
                    && *final(t) == final(self).subject() && #[trigger] local.ensures((g, t), r),
    ;
}

} // verus!
