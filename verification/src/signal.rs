use crate::obj::Base;
use crate::obj::Gd;
use crate::obj::Object;
use crate::obj::ObjectStore;
use vstd::prelude::*;

verus! {

/// The capability signal emission needs of a value: it can hand out
/// exclusive access to its underlying engine object, and a fresh owned
/// handle to that same object. User-defined object types have it through
/// their base field.
pub trait AnySignalObject {
    /// Identity of the underlying engine object.
    spec fn obj_id(&self) -> usize;

    /// Exclusive view of the underlying object, resolved through the store.
    /// This re-borrows, so it may be used from within a method that already
    /// holds the value mutably; the value keeps naming the same object.
    fn borrow_object_mut<'s>(&mut self, store: &'s mut ObjectStore) -> (r: &'s mut Object)
        requires
            old(self).obj_id() < old(store)@.len(),
        ensures
            *r == old(store)@[old(self).obj_id() as int],
            final(store)@ == old(store)@.update(old(self).obj_id() as int, *final(r)),
            final(self).obj_id() == old(self).obj_id(),
    ;

    /// A fresh owned handle to the underlying object.
    fn to_owned_object(&self) -> (gd: Gd)
        ensures
            gd.id() == self.obj_id(),
    ;
}

/// A user-defined object reaches its engine object through its base field,
/// so the base itself carries the capability.
impl AnySignalObject for Base {
    open spec fn obj_id(&self) -> usize {
        self.id()
    }

    fn borrow_object_mut<'s>(&mut self, store: &'s mut ObjectStore) -> (r: &'s mut Object) {
        self.object_mut(store)
    }

    fn to_owned_object(&self) -> (gd: Gd) {
        self.to_init_gd()
    }
}

/// Type-erased reference to an engine object, used by signal emission so
/// that callers need not distinguish how the object is held.
///
/// Exactly two ways exist and the variant never changes after construction:
/// a mutable borrow of a capability-bearing value (held from inside one of
/// the owning object's own methods), or an independent owned handle.
pub enum ErasedSignalObj<'c, T: AnySignalObject> {
    /// Re-uses a `&mut` held inside the owning object's `impl` block. Access
    /// goes through re-borrowing, which is what permits re-entrant calls
    /// back into the same object while one of its methods is still running.
    Internal { self_mut: &'c mut T },
    /// An owned handle, obtained from outside the object.
    External { gd: Gd },
}

impl<'c, T: AnySignalObject> ErasedSignalObj<'c, T> {
    /// Identity of the engine object this reference currently names.
    pub open spec fn target_id(&self) -> usize {
        match self {
            ErasedSignalObj::Internal { self_mut } => self_mut.obj_id(),
            ErasedSignalObj::External { gd } => gd.id(),
        }
    }

    /// Erases an owned handle: stores a fresh handle to the same object and
    /// leaves the given one untouched.
    pub fn from_external(object: &'c mut Gd) -> (r: Self)
        ensures
            r is External,
            r.target_id() == old(object).id(),
            *final(object) == *old(object),
    {
        ErasedSignalObj::External { gd: object.clone() }
    }

    /// Erases a mutable borrow of a capability-bearing value: stores the
    /// borrow itself, without touching the value.
    pub fn from_internal(object: &'c mut T) -> (r: Self)
        ensures
            r is Internal,
            r.target_id() == old(object).obj_id(),
            final(r->Internal_self_mut).obj_id() == final(object).obj_id(),
    {
        ErasedSignalObj::Internal { self_mut: object }
    }

    /// An owned handle to the object this reference names, whatever the
    /// variant: a clone of the stored handle, or the handle the borrowed
    /// value reports for itself.
    pub fn to_owned_object(&self) -> (gd: Gd)
        ensures
            gd.id() == self.target_id(),
    {
        match self {
            ErasedSignalObj::Internal { self_mut } => self_mut.to_owned_object(),
            ErasedSignalObj::External { gd } => gd.clone(),
        }
    }

    /// Applies `f` to the object this reference names, whatever the
    /// variant: a pure pass-through that only resolves the right access
    /// path through the store. What `f` writes lands in the store's entry
    /// for the target identity and nowhere else, so it is afterwards seen
    /// through every handle with that identity. The reference itself keeps
    /// its variant and its target; an `External` payload is not touched,
    /// and an `Internal` one keeps borrowing the same place.
    pub fn with_object_mut<F: FnOnce(&mut Object)>(&mut self, store: &mut ObjectStore, f: F)
        requires
            old(self).target_id() < old(store)@.len(),
            forall|o: &mut Object|
                *o == old(store)@[old(self).target_id() as int] ==> call_requires(f, (o,)),
        ensures
            exists|o: &mut Object|
                (*o == old(store)@[old(self).target_id() as int] && call_ensures(f, (o,), ())
                    && final(store)@ == old(store)@.update(
                    old(self).target_id() as int,
                    *final(o),
                )),
            final(self).target_id() == old(self).target_id(),
            *final(self) is Internal <==> *old(self) is Internal,
            *old(self) is External ==> *final(self) == *old(self),
            *old(self) is Internal
                ==> final((*final(self))->Internal_self_mut).obj_id()
                == final((*old(self))->Internal_self_mut).obj_id(),
    {
        match self {
            ErasedSignalObj::Internal { self_mut } => {
                let obj = self_mut.borrow_object_mut(store);
                f(obj);
            },
            ErasedSignalObj::External { gd } => {
                let obj = gd.object_mut(store);
                f(obj);
            },
        }
    }
}

/// Law: an `External` reference built from an owned handle names the
/// handle's object; any owned handle it yields carries that same identity.
///
/// The premises are exactly what [`ErasedSignalObj::from_external`] ensures
/// of the reference and what [`ErasedSignalObj::to_owned_object`] ensures of
/// the yielded handle.
pub proof fn lemma_external_keeps_identity<T: AnySignalObject>(
    handle: Gd,
    r: ErasedSignalObj<T>,
    yielded: Gd,
)
    requires
        r.target_id() == handle.id(),
        yielded.id() == r.target_id(),
    ensures
        yielded.id() == handle.id(),
{
}

/// Law: an `Internal` reference yields the same owned object as the value
/// it borrows reports for itself.
///
/// The premises are exactly what [`ErasedSignalObj::from_internal`] ensures
/// of the reference and what [`ErasedSignalObj::to_owned_object`] and
/// [`AnySignalObject::to_owned_object`] ensure of the two handles.
pub proof fn lemma_internal_matches_value<T: AnySignalObject>(
    value: T,
    r: ErasedSignalObj<T>,
    from_reference: Gd,
    from_value: Gd,
)
    requires
        r.target_id() == value.obj_id(),
        from_reference.id() == r.target_id(),
        from_value.id() == value.obj_id(),
    ensures
        from_reference.id() == from_value.id(),
{
}

/// Law: asking for the owned object any number of times never changes which
/// object the reference names, whatever the variant: all yielded handles
/// agree on the identity.
///
/// The premises are exactly what [`ErasedSignalObj::to_owned_object`]
/// ensures of each yielded handle.
pub proof fn lemma_to_owned_object_idempotent<T: AnySignalObject>(
    r: ErasedSignalObj<T>,
    first: Gd,
    second: Gd,
)
    requires
        first.id() == r.target_id(),
        second.id() == r.target_id(),
    ensures
        first.id() == second.id(),
{
}

/// Law: mutation is alias-based, not value-based. After a mutation of the
/// store's entry for one identity, every handle with that identity sees the
/// written object, and every handle with another identity sees its object
/// unchanged.
///
/// The premise is exactly what [`ErasedSignalObj::with_object_mut`] and the
/// store's own mutable access ensure of the store: the target's entry
/// became what the holder of the view wrote, and no other entry moved.
pub proof fn lemma_mutation_is_shared(
    before: Seq<Object>,
    after: Seq<Object>,
    target_id: usize,
    written: Object,
    handle: Gd,
)
    requires
        target_id < before.len(),
        handle.id() < before.len(),
        after == before.update(target_id as int, written),
    ensures
        handle.id() == target_id ==> after[handle.id() as int] == written,
        handle.id() != target_id ==> after[handle.id() as int] == before[handle.id() as int],
{
}

} // verus!
