use vstd::prelude::*;

verus! {

/// An object instance as it sits in the engine's store: its identity and a
/// word standing for its engine-side mutable state.
///
/// Instances live inside the [`ObjectStore`] alone. Nothing outside the
/// store can construct or clone one, so a mutable view handed out by the
/// store lets its holder change the object's state but never its identity,
/// and never swap in another instance.
pub struct Object {
    instance_id: usize,
    state: u64,
}

impl Object {
    /// Identity in the engine's object store.
    pub closed spec fn id(&self) -> usize {
        self.instance_id
    }

    /// Stand-in for the engine-side state of the instance.
    pub closed spec fn state(&self) -> u64 {
        self.state
    }

    pub fn instance_id(&self) -> (id: usize)
        ensures
            id == self.id(),
    {
        self.instance_id
    }

    /// Reads the instance's state.
    pub fn get_state(&self) -> (s: u64)
        ensures
            s == self.state(),
    {
        self.state
    }

    /// Overwrites the instance's state; the identity stays what the store
    /// gave it.
    pub fn set_state(&mut self, v: u64)
        ensures
            final(self).id() == old(self).id(),
            final(self).state() == v,
    {
        self.state = v;
    }
}

/// The engine's object store: the single owner of every live instance.
///
/// Handles carry identities, and every access to an object resolves through
/// the store, so a mutation made through one handle is afterwards seen
/// through every handle with the same identity — objects alias, they are
/// not copied around.
pub struct ObjectStore {
    objects: Vec<Object>,
}

impl View for ObjectStore {
    type V = Seq<Object>;

    closed spec fn view(&self) -> Seq<Object> {
        self.objects@
    }
}

impl ObjectStore {
    /// An empty store.
    pub fn new() -> (store: ObjectStore)
        ensures
            store@.len() == 0,
    {
        ObjectStore { objects: Vec::new() }
    }

    /// Allocates a fresh instance and hands out the first owned handle to
    /// it. The new instance sits at the next free slot, knows its own
    /// identity, and starts with zeroed state; no existing instance moves.
    pub fn allocate(&mut self) -> (gd: Gd)
        ensures
            final(self)@.len() == old(self)@.len() + 1,
            gd.id() == old(self)@.len(),
            final(self)@[gd.id() as int].id() == gd.id(),
            final(self)@[gd.id() as int].state() == 0,
            forall|i: int| 0 <= i < old(self)@.len() ==> final(self)@[i] == old(self)@[i],
    {
        let id = self.objects.len();
        self.objects.push(Object { instance_id: id, state: 0 });
        Gd { instance_id: id }
    }

    /// Reads the state of the instance with the given identity.
    pub fn state_of(&self, id: usize) -> (s: u64)
        requires
            id < self@.len(),
        ensures
            s == self@[id as int].state(),
    {
        self.objects[id].get_state()
    }

    /// Exclusive view of the instance with the given identity: the engine's
    /// dispatch from a handle to the object it names. What the holder
    /// writes lands in the store's entry for that identity; every other
    /// entry stays as it was.
    pub fn object_mut(&mut self, id: usize) -> (r: &mut Object)
        requires
            id < old(self)@.len(),
        ensures
            *r == old(self)@[id as int],
            final(self)@ == old(self)@.update(id as int, *final(r)),
    {
        &mut self.objects[id]
    }
}

/// An owned handle to an object in the engine's store: it carries the
/// identity of the instance it refers to, while the instance itself stays
/// in the store. Cloning yields an independent handle to the same object;
/// the reference-count bookkeeping behind that belongs to the store and is
/// not modeled.
#[derive(Debug)]
pub struct Gd {
    instance_id: usize,
}

impl Gd {
    /// Identity of the object this handle names.
    pub closed spec fn id(&self) -> usize {
        self.instance_id
    }

    pub fn instance_id(&self) -> (id: usize)
        ensures
            id == self.id(),
    {
        self.instance_id
    }

    /// The state of the named object, as the store holds it now.
    pub fn state(&self, store: &ObjectStore) -> (s: u64)
        requires
            self.id() < store@.len(),
        ensures
            s == store@[self.id() as int].state(),
    {
        store.state_of(self.instance_id)
    }

    /// Exclusive view of the named object, resolved through the store.
    pub fn object_mut<'s>(&self, store: &'s mut ObjectStore) -> (r: &'s mut Object)
        requires
            self.id() < old(store)@.len(),
        ensures
            *r == old(store)@[self.id() as int],
            final(store)@ == old(store)@.update(self.id() as int, *final(r)),
    {
        store.object_mut(self.instance_id)
    }
}

impl Clone for Gd {
    /// A new owned handle to the same object.
    fn clone(&self) -> (r: Gd)
        ensures
            r.id() == self.id(),
    {
        Gd { instance_id: self.instance_id }
    }
}

/// The base-class part of a user-defined object: what ties the user value
/// to the engine instance it extends. Construction of a derived object
/// starts from a handle the store allocated, and the base keeps that
/// identity for the object's whole life.
#[derive(Debug)]
pub struct Base {
    instance_id: usize,
}

impl Base {
    /// Identity of the base object.
    pub closed spec fn id(&self) -> usize {
        self.instance_id
    }

    /// Wraps the base object a derived object is being built around.
    pub fn from_gd(gd: &Gd) -> (base: Base)
        ensures
            base.id() == gd.id(),
    {
        Base { instance_id: gd.instance_id }
    }

    /// A fresh owned handle to the base object, usable already while the
    /// derived object is still under construction.
    pub fn to_init_gd(&self) -> (gd: Gd)
        ensures
            gd.id() == self.id(),
    {
        Gd { instance_id: self.instance_id }
    }

    /// Exclusive view of the base object, resolved through the store.
    pub fn object_mut<'s>(&mut self, store: &'s mut ObjectStore) -> (r: &'s mut Object)
        requires
            old(self).id() < old(store)@.len(),
        ensures
            *r == old(store)@[old(self).id() as int],
            final(store)@ == old(store)@.update(old(self).id() as int, *final(r)),
            final(self).id() == old(self).id(),
    {
        store.object_mut(self.instance_id)
    }
}

} // verus!
