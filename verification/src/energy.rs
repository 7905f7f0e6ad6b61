//! The capability an energy model must offer to the sampling engine.

use vstd::prelude::*;
use crate::system::System;

verus! {

/// Scores a system as a whole and by the contribution of one element.
///
/// Energies are fixed-point integers in a unit chosen by the
/// implementation.  Implementations must honor the locality contract
/// stated by [`Energy::local_additivity`]: when two systems differ at a
/// single position, the change of the total energy equals the change of
/// that position's local contribution.  The engine relies on this to
/// evaluate a move in one local call instead of rescoring the whole
/// system.
pub trait Energy<S: System> {
    /// The total energy the model assigns to a system with these elements.
    /// The default scores everything as zero; a model whose exec methods
    /// return anything else must override it.
    open spec fn total_energy(&self, s: Seq<S::Elem>) -> int {
        0
    }

    /// The local energy contribution of the element at `pos`.  The
    /// default scores everything as zero; a model whose exec methods
    /// return anything else must override it.
    open spec fn local_energy(&self, s: Seq<S::Elem>, pos: int) -> int {
        0
    }

    /// Total energy of the system.
    fn energy(&self, system: &S) -> (e: i64)
        ensures
            e == self.total_energy(system.elems()),
    ;

    /// Local energy contribution of the element at `pos`.
    fn energy_by_pos(&self, system: &S, pos: usize) -> (e: i64)
        requires
            pos < system.elems().len(),
        ensures
            e == self.local_energy(system.elems(), pos as int),
    ;

    /// The before/after local contributions of the element at `pos` across
    /// two system snapshots, in one call.
    fn delta_energy_by_pos(&self, old_system: &S, new_system: &S, pos: usize) -> (r: (i64, i64))
        requires
            pos < old_system.elems().len(),
            pos < new_system.elems().len(),
        ensures
            r.0 == self.local_energy(old_system.elems(), pos as int),
            r.1 == self.local_energy(new_system.elems(), pos as int),
    ;
}

/// The locality contract an energy model must honor: whenever two
/// equal-length element sequences differ at most at one position, the
/// change of the total energy equals the change of that position's local
/// contribution.
pub open spec fn is_additive<S: System, E: Energy<S>>(e: E) -> bool {
    forall|a: Seq<S::Elem>, b: Seq<S::Elem>, pos: int|
        #![trigger e.local_energy(a, pos), e.local_energy(b, pos)]
        a.len() == b.len() && 0 <= pos < a.len() && (forall|j: int|
            0 <= j < a.len() && j != pos ==> a[j] == b[j]) ==> e.total_energy(b)
            - e.total_energy(a) == e.local_energy(b, pos) - e.local_energy(a, pos)
}

/// For an additive energy model, the global energy change of one
/// committed move equals the local delta that `delta_energy_by_pos`
/// reports for the touched position — exactly, which is what the
/// engine's development-time consistency check asserts within a
/// tolerance.
pub proof fn lemma_local_delta_is_global_delta<S: System, E: Energy<S>>(
    e: E,
    a: Seq<S::Elem>,
    b: Seq<S::Elem>,
    pos: int,
)
    requires
        is_additive::<S, E>(e),
        a.len() == b.len(),
        0 <= pos < a.len(),
        forall|j: int| 0 <= j < a.len() && j != pos ==> a[j] == b[j],
    ensures
        e.total_energy(b) - e.total_energy(a) == e.local_energy(b, pos) - e.local_energy(
            a,
            pos,
        ),
{
}

} // verus!
