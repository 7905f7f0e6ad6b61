//! The capability a simulated system must offer to the sampling engine.

use vstd::prelude::*;

verus! {

/// A state container that the Monte Carlo engine can sample.
///
/// A system is a fixed-length sequence of elements of some type `Elem`,
/// abstracted by [`System::elems`].  The engine keeps two live instances —
/// the accepted state and a speculative trial state — so a system must
/// support full duplication ([`System::duplicate`]) and pointwise
/// overwriting of one element from another instance of the same length
/// ([`System::copy_from`]), which is the unit of commit and rollback.
pub trait System: Sized {
    /// The type of one element of the system.
    type Elem;

    /// The mathematical model of the system: the sequence of its elements.
    /// The default models an empty system; every implementation whose
    /// exec methods see any element must override it.
    open spec fn elems(&self) -> Seq<Self::Elem> {
        Seq::empty()
    }

    /// Number of elements.
    fn size(&self) -> (n: usize)
        ensures
            n == self.elems().len(),
    ;

    /// Overwrite the local element `i` with `rhs`'s element `i`.
    ///
    /// Never resizes, and touches no element other than `i`.
    fn copy_from(&mut self, i: usize, rhs: &Self)
        requires
            i < old(self).elems().len(),
            rhs.elems().len() == old(self).elems().len(),
        ensures
            final(self).elems() == old(self).elems().update(i as int, rhs.elems()[i as int]),
    ;

    /// A full, independent copy with the same elements.
    fn duplicate(&self) -> (r: Self)
        ensures
            r.elems() == self.elems(),
    ;
}

} // verus!
