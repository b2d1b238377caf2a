use crate::obj::Base;
use crate::obj::Gd;
use vstd::prelude::*;

verus! {

/// Initialization wrapper around the base object while a derived object is
/// under construction.
///
/// The construction path makes one `Initer`; the constructor may obtain a
/// handle to the not-yet-finished object through [`Initer::to_gd`] any number
/// of times, and construction ends with [`Initer::into_base`] moving the base
/// out into the new object's permanent field. Consumption is a move, so the
/// wrapper cannot be touched afterwards.
#[derive(Debug)]
pub struct Initer {
    base: Base,
}

impl Initer {
    /// Identity of the object under construction.
    pub closed spec fn id(&self) -> usize {
        self.base.id()
    }

    /// Wraps the base object at the start of construction.
    pub fn new(base: Base) -> (initer: Initer)
        ensures
            initer.id() == base.id(),
    {
        Initer { base }
    }

    /// An owned handle to the object under construction. Every call yields a
    /// handle to the same object that [`Initer::into_base`] will yield.
    pub fn to_gd(&self) -> (gd: Gd)
        ensures
            gd.id() == self.id(),
    {
        self.base.to_init_gd()
    }

    /// Ends construction: moves the base object out, for storage as the
    /// derived object's base field.
    pub fn into_base(self) -> (base: Base)
        ensures
            base.id() == self.id(),
    {
        self.base
    }
}

/// Law: peeking never names another instance. Any handles obtained from the
/// wrapper before construction ends, and the base moved out at its end, all
/// carry one and the same identity.
///
/// The premises are exactly what [`Initer::to_gd`] ensures of each handle and
/// what [`Initer::into_base`] ensures of the base.
pub proof fn lemma_init_handles_agree(initer: Initer, first: Gd, second: Gd, base: Base)
    requires
        first.id() == initer.id(),
        second.id() == initer.id(),
        base.id() == initer.id(),
    ensures
        first.id() == second.id(),
        first.id() == base.id(),
{
}

} // verus!
