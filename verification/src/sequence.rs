//! A concrete system for sequence design: the state is a sequence of
//! residue type indices, and a mover that redraws one residue at random.

use rand::Rng;
use vstd::prelude::*;
use crate::montecarlo::{IndexRange, Mover};
use crate::stats::AcceptanceStatistics;
use crate::system::System;

verus! {

/// A system whose elements are residue type indices, one `u8` per
/// sequence position.
#[derive(Clone, Debug)]
pub struct SequenceSystem(Vec<u8>);

impl SequenceSystem {
    /// A sequence of `seq_len` positions, all holding residue type `0`.
    pub fn new(seq_len: usize) -> (r: SequenceSystem)
        ensures
            r.elems() == Seq::new(seq_len as nat, |i: int| 0u8),
    {
        let v: Vec<u8> = vec![0u8; seq_len];
        proof {
            assert(v@ =~= Seq::new(seq_len as nat, |i: int| 0u8));
        }
        SequenceSystem(v)
    }

    /// A sequence holding the given residue types.
    pub fn from_values(values: Vec<u8>) -> (r: SequenceSystem)
        ensures
            r.elems() == values@,
    {
        SequenceSystem(values)
    }

    /// The residue type at position `i`.
    pub fn get(&self, i: usize) -> (v: u8)
        requires
            i < self.elems().len(),
        ensures
            v == self.elems()[i as int],
    {
        self.0[i]
    }
}

impl System for SequenceSystem {
    type Elem = u8;

    closed spec fn elems(&self) -> Seq<u8> {
        self.0@
    }

    fn size(&self) -> (n: usize) {
        self.0.len()
    }

    fn copy_from(&mut self, i: usize, rhs: &Self) {
        self.0[i] = rhs.0[i];
    }

    fn duplicate(&self) -> (r: Self) {
        let mut v: Vec<u8> = Vec::new();
        let mut i: usize = 0;
        let len = self.0.len();
        while i < len
            invariant
                i <= len,
                len == self.0@.len(),
                v@ == self.0@.subrange(0, i as int),
            decreases len - i,
        {
            v.push(self.0[i]);
            proof {
                assert(v@ =~= self.0@.subrange(0, i + 1));
            }
            i += 1;
        }
        proof {
            assert(v@ =~= self.0@);
        }
        SequenceSystem(v)
    }
}

/// Relies on `rand::Rng::gen_range` over `0..bound`: it panics only on an
/// empty range, and otherwise returns a member of the range.
#[verifier::external_body]
fn random_below(bound: usize) -> (r: usize)
    requires
        bound >= 1,
    ensures
        r < bound,
{
    rand::thread_rng().gen_range(0..bound)
}

/// A mover that redraws one randomly chosen sequence position as a random
/// residue type below `n_aa`.
pub struct SingleAAMover {
    n_aa: usize,
    succ_rate: AcceptanceStatistics,
    max_range: u64,
}

impl SingleAAMover {
    /// How many residue types the mover draws from; a redrawn position
    /// always holds a value below this.
    #[verifier::type_invariant]
    spec fn well_formed(&self) -> bool {
        1 <= self.n_aa <= 255
    }

    /// A mover drawing from `n_aa` residue types, with fresh counters and
    /// a unit step size.
    pub fn new(n_aa: usize) -> (r: SingleAAMover)
        requires
            1 <= n_aa <= 255,
        ensures
            r.stats() == (AcceptanceStatistics { n_succ: 0, n_failed: 0 }),
            r.step_size() == 1,
    {
        SingleAAMover {
            n_aa,
            succ_rate: AcceptanceStatistics { n_succ: 0, n_failed: 0 },
            max_range: 1,
        }
    }
}

impl Mover<SequenceSystem> for SingleAAMover {
    closed spec fn stats(&self) -> AcceptanceStatistics {
        self.succ_rate
    }

    closed spec fn step_size(&self) -> u64 {
        self.max_range
    }

    fn perturb(&mut self, system: &mut SequenceSystem) -> (range: IndexRange) {
        proof {
            use_type_invariant(&*self);
        }
        let i_moved = random_below(system.size());
        let new_residue = random_below(self.n_aa) as u8;
        system.0[i_moved] = new_residue;
        IndexRange { start: i_moved, end: i_moved }
    }

    fn acceptance_statistics(&self) -> (s: AcceptanceStatistics) {
        self.succ_rate
    }

    fn add_success(&mut self) {
        proof {
            use_type_invariant(&*self);
        }
        self.succ_rate.n_succ = self.succ_rate.n_succ + 1;
    }

    fn add_failure(&mut self) {
        proof {
            use_type_invariant(&*self);
        }
        self.succ_rate.n_failed = self.succ_rate.n_failed + 1;
    }

    fn max_range(&self) -> (r: u64) {
        self.max_range
    }

    fn set_max_range(&mut self, new_val: u64) {
        proof {
            use_type_invariant(&*self);
        }
        self.max_range = new_val;
    }
}

} // verus!
