//! The Monte Carlo sweep engine: acceptance criteria, movers, and the
//! protocol that drives the speculative-copy / evaluate / accept-or-rollback
//! cycle.

use core::marker::PhantomData;
use vstd::prelude::*;
use crate::energy::Energy;
use crate::stats::AcceptanceStatistics;
use crate::system::System;

verus! {

/// The closed range of element indices touched by one proposed move.
///
/// Both bounds are inclusive: a move on a single index `i` reports
/// `start == end == i`.
#[derive(Clone, Copy, Debug, PartialEq, Eq, Structural)]
pub struct IndexRange {
    pub start: usize,
    pub end: usize,
}

/// A stochastic accept/reject rule for one proposed move, given the local
/// energies before and after the move.
pub trait AcceptanceCriterion {
    /// The inputs on which this criterion promises to accept
    /// deterministically.  A Metropolis-style rule, for instance, always
    /// accepts a move that does not raise the energy.  A criterion that
    /// promises nothing keeps the default, which is no promise at all.
    open spec fn must_accept(&self, energy_before: i64, energy_after: i64) -> bool {
        false
    }

    /// Decide whether a move from `energy_before` to `energy_after` is
    /// accepted.  The decision may draw from the criterion's own random
    /// source; the only promises are that a `must_accept` pair is accepted
    /// and that the deterministic part of the rule does not drift as the
    /// random source evolves.
    fn check(&mut self, energy_before: i64, energy_after: i64) -> (accept: bool)
        ensures
            old(self).must_accept(energy_before, energy_after) ==> accept,
            forall|b: i64, a: i64|
                final(self).must_accept(b, a) == old(self).must_accept(b, a),
    ;
}

/// A pluggable perturbation strategy with its own step size and acceptance
/// bookkeeping.
pub trait Mover<S: System> {
    /// The mover's private acceptance counters.  The default models
    /// untouched counters; every implementation that counts must override
    /// it.
    open spec fn stats(&self) -> AcceptanceStatistics {
        AcceptanceStatistics { n_succ: 0, n_failed: 0 }
    }

    /// The mover's step size: a fixed-point scalar, in a unit chosen by
    /// the implementation, bounding the magnitude of one perturbation.
    /// The default models a zero step; every implementation with a real
    /// step size must override it.
    open spec fn step_size(&self) -> u64 {
        0
    }

    /// Apply a randomized change to the given system (the speculative
    /// trial state), touching only a contiguous index range, which is
    /// returned.  Leaves its own counters and step size alone.
    fn perturb(&mut self, system: &mut S) -> (range: IndexRange)
        requires
            old(system).elems().len() >= 1,
        ensures
            range.start <= range.end < old(system).elems().len(),
            final(system).elems().len() == old(system).elems().len(),
            forall|j: int|
                0 <= j < old(system).elems().len() && !(range.start <= j <= range.end)
                    ==> final(system).elems()[j] == old(system).elems()[j],
            final(self).stats() == old(self).stats(),
            final(self).step_size() == old(self).step_size(),
    ;

    /// A read-only snapshot of the mover's counters.
    fn acceptance_statistics(&self) -> (s: AcceptanceStatistics)
        ensures
            s == self.stats(),
    ;

    /// Record one accepted move.  Called exactly once per attempted move
    /// by the protocol, never by the mover itself.
    fn add_success(&mut self)
        requires
            old(self).stats().n_succ < i32::MAX,
        ensures
            final(self).stats().n_succ == old(self).stats().n_succ + 1,
            final(self).stats().n_failed == old(self).stats().n_failed,
            final(self).step_size() == old(self).step_size(),
    ;

    /// Record one rejected move.  Called exactly once per attempted move
    /// by the protocol, never by the mover itself.
    fn add_failure(&mut self)
        requires
            old(self).stats().n_failed < i32::MAX,
        ensures
            final(self).stats().n_failed == old(self).stats().n_failed + 1,
            final(self).stats().n_succ == old(self).stats().n_succ,
            final(self).step_size() == old(self).step_size(),
    ;

    /// Current step size.
    fn max_range(&self) -> (r: u64)
        ensures
            r == self.step_size(),
    ;

    /// Overwrite the step size.  Read and rewritten by the adaptive
    /// wrapper between sweep batches.
    fn set_max_range(&mut self, new_val: u64)
        ensures
            final(self).step_size() == new_val,
            final(self).stats() == old(self).stats(),
    ;
}

/// `dst` with the elements of the closed range `first ..= last` replaced by
/// `src`'s.
pub open spec fn overwrite_range<T>(dst: Seq<T>, src: Seq<T>, first: int, last: int) -> Seq<T> {
    Seq::new(dst.len(), |j: int| if first <= j <= last { src[j] } else { dst[j] })
}

/// Rollback is exact: if the trial state `fut` agreed with the accepted
/// state `cur` everywhere outside the touched range `first ..= last`, then
/// overwriting the touched range from `cur` restores `fut` to be
/// element-wise identical to `cur` at every index.
pub proof fn lemma_rollback_restores<T>(cur: Seq<T>, fut: Seq<T>, first: int, last: int)
    requires
        cur.len() == fut.len(),
        0 <= first <= last < cur.len(),
        forall|j: int| 0 <= j < cur.len() && !(first <= j <= last) ==> fut[j] == cur[j],
    ensures
        overwrite_range(fut, cur, first, last) == cur,
{
    assert(overwrite_range(fut, cur, first, last) =~= cur);
}

/// Copy the elements of the closed range `first ..= last` from `src` into
/// `dst`, one index at a time.  This is the unit of commit (trial into
/// accepted state) and of rollback (accepted state back into the trial).
fn sync_range<S: System>(dst: &mut S, src: &S, first: usize, last: usize)
    requires
        first <= last < old(dst).elems().len(),
        src.elems().len() == old(dst).elems().len(),
    ensures
        final(dst).elems() == overwrite_range(
            old(dst).elems(),
            src.elems(),
            first as int,
            last as int,
        ),
{
    let ghost dst0 = dst.elems();
    let mut i: usize = first;
    proof {
        assert(dst.elems() =~= overwrite_range(dst0, src.elems(), first as int, i - 1));
    }
    loop
        invariant_except_break
            dst.elems() == overwrite_range(dst0, src.elems(), first as int, i - 1),
        invariant
            first <= i <= last,
            last < dst0.len(),
            src.elems().len() == dst0.len(),
        ensures
            dst.elems() == overwrite_range(dst0, src.elems(), first as int, last as int),
        decreases last - i,
    {
        dst.copy_from(i, src);
        proof {
            assert(dst.elems() =~= overwrite_range(dst0, src.elems(), first as int, i as int));
        }
        if i == last {
            break;
        }
        i += 1;
    }
}

/// Ownership of a homogeneous list of movers.
pub trait MoversSet<S: System, M: Mover<S>> {
    /// The mathematical model: the sequence of owned movers.
    spec fn movers(&self) -> Seq<M>;

    /// Hand a mover over to the set.
    fn add_mover(&mut self, perturb_fn: M)
        ensures
            final(self).movers() == old(self).movers().push(perturb_fn),
    ;

    /// Mutable access to one owned mover.
    fn get_mover(&mut self, which_one: usize) -> (mover: &mut M)
        requires
            which_one < old(self).movers().len(),
        ensures
            *mover == old(self).movers()[which_one as int],
            final(self).movers() == old(self).movers().update(
                which_one as int,
                *final(mover),
            ),
    ;

    /// Number of owned movers.
    fn count_movers(&self) -> (n: usize)
        ensures
            n == self.movers().len(),
    ;
}

/// The sweep capability: run batches of Monte Carlo sweeps over a system.
pub trait Sampler<S: System, M: Mover<S>>: MoversSet<S, M> {
    /// Run `n` sweeps.  One sweep attempts one move per element of
    /// `coords` for every owned mover, and commits or rolls back each
    /// attempt.
    ///
    /// Whatever the energies and the acceptance decisions turn out to be,
    /// every mover records exactly `n * coords.size()` attempts, its
    /// counters never decrease, and the system keeps its length.
    fn make_sweeps<E: Energy<S>>(&mut self, n: usize, coords: &mut S, energy: &E)
        requires
            forall|i: int|
                #![trigger old(self).movers()[i]]
                0 <= i < old(self).movers().len() ==> {
                    let s = old(self).movers()[i].stats();
                    0 <= s.n_succ && 0 <= s.n_failed && s.attempts() + n
                        * old(coords).elems().len() <= i32::MAX
                },
        ensures
            final(self).movers().len() == old(self).movers().len(),
            final(coords).elems().len() == old(coords).elems().len(),
            forall|i: int|
                #![trigger old(self).movers()[i]]
                0 <= i < old(self).movers().len() ==> {
                    let s0 = old(self).movers()[i].stats();
                    let s1 = final(self).movers()[i].stats();
                    s0.n_succ <= s1.n_succ && s0.n_failed <= s1.n_failed && s1.attempts()
                        == s0.attempts() + n * old(coords).elems().len()
                },
    ;
}

/// A sampler that also exposes its mover set: what an adaptive wrapper
/// needs from the sampler it retunes.
pub trait MoversSetSampler<S: System, M: Mover<S>>: Sampler<S, M> {

}

/// The counters `s1` extend the counters `s0` by exactly `added` attempts.
spec fn stats_advanced(s0: AcceptanceStatistics, s1: AcceptanceStatistics, added: int) -> bool {
    s0.n_succ <= s1.n_succ && s0.n_failed <= s1.n_failed && s1.attempts() == s0.attempts() + added
}

/// The counters `s1` extend the counters `s0` by `added` successes and no
/// failures.
spec fn stats_all_succeeded(
    s0: AcceptanceStatistics,
    s1: AcceptanceStatistics,
    added: int,
) -> bool {
    s1.n_succ == s0.n_succ + added && s1.n_failed == s0.n_failed
}

/// How many attempts the sweep loops have charged to mover `j` when they
/// stand at sweep `sweep`, mover `i_mover`, attempt `attempt`, on a system
/// of `size` elements.
spec fn attempts_added(j: int, sweep: int, i_mover: int, attempt: int, size: int) -> int {
    sweep * size + if j < i_mover {
        size as int
    } else if j == i_mover {
        attempt
    } else {
        0
    }
}

/// A Monte Carlo protocol: an acceptance criterion plus an owned list of
/// movers, sampling by the speculative-copy / evaluate / accept-or-rollback
/// cycle.
pub struct MCProtocol<T: AcceptanceCriterion, S: System, M: Mover<S>> {
    pub acceptance_criterion: T,
    movers: Vec<M>,
    _system: PhantomData<S>,
}

impl<T: AcceptanceCriterion, S: System, M: Mover<S>> MCProtocol<T, S, M> {
    /// The acceptance criterion, as contracts see it.
    pub closed spec fn criterion(&self) -> T {
        self.acceptance_criterion
    }

    /// A protocol with the given criterion and no movers yet.
    pub fn new(acc_crit: T) -> (r: MCProtocol<T, S, M>)
        ensures
            r.movers() == Seq::<M>::empty(),
            r.criterion() == acc_crit,
    {
        MCProtocol { acceptance_criterion: acc_crit, movers: Vec::new(), _system: PhantomData }
    }

    /// Run `n` sweeps: for each sweep and each mover, one attempted move
    /// per element of `coords`.
    ///
    /// Each attempt perturbs the speculative copy, scores the move by the
    /// local energy delta of the touched position, and asks the criterion.
    /// An accepted move is committed to `coords`; a rejected move is
    /// rolled back so the speculative copy is element-wise identical to
    /// `coords` again.
    ///
    /// Beyond the general sweep contract, this protocol promises that the
    /// criterion's deterministic rule and each mover's step size survive
    /// the batch, and that on a landscape where the criterion must accept
    /// every move — for instance a constant-zero energy under a
    /// Metropolis-style rule — every attempt is recorded as a success.
    pub fn make_sweeps<E: Energy<S>>(&mut self, n: usize, coords: &mut S, energy: &E)
        requires
            forall|i: int|
                #![trigger old(self).movers()[i]]
                0 <= i < old(self).movers().len() ==> {
                    let s = old(self).movers()[i].stats();
                    0 <= s.n_succ && 0 <= s.n_failed && s.attempts() + n
                        * old(coords).elems().len() <= i32::MAX
                },
        ensures
            final(self).movers().len() == old(self).movers().len(),
            final(coords).elems().len() == old(coords).elems().len(),
            forall|i: int|
                #![trigger old(self).movers()[i]]
                0 <= i < old(self).movers().len() ==> {
                    let s0 = old(self).movers()[i].stats();
                    let s1 = final(self).movers()[i].stats();
                    s0.n_succ <= s1.n_succ && s0.n_failed <= s1.n_failed && s1.attempts()
                        == s0.attempts() + n * old(coords).elems().len()
                },
            forall|i: int|
                #![trigger old(self).movers()[i]]
                0 <= i < old(self).movers().len() ==> final(self).movers()[i].step_size()
                    == old(self).movers()[i].step_size(),
            forall|b: i64, a: i64|
                final(self).criterion().must_accept(b, a) == old(self).criterion().must_accept(
                    b,
                    a,
                ),
            (forall|b: i64, a: i64| old(self).criterion().must_accept(b, a))
                ==> forall|i: int|
                #![trigger old(self).movers()[i]]
                0 <= i < old(self).movers().len() ==> {
                    let s0 = old(self).movers()[i].stats();
                    let s1 = final(self).movers()[i].stats();
                    s1.n_succ == s0.n_succ + n * old(coords).elems().len() && s1.n_failed
                        == s0.n_failed
                },
    {
        let size = coords.size();
        let n_movers = self.movers.len();
        let mut future_coords = coords.duplicate();
        let mut sweep: usize = 0;
        while sweep < n
            invariant
                sweep <= n,
                size == coords.elems().len(),
                n_movers == self.movers().len(),
                self.movers().len() == old(self).movers().len(),
                coords.elems().len() == old(coords).elems().len(),
                future_coords.elems() == coords.elems(),
                forall|i: int|
                    #![trigger old(self).movers()[i]]
                    0 <= i < n_movers ==> {
                        let s = old(self).movers()[i].stats();
                        0 <= s.n_succ && 0 <= s.n_failed && s.attempts() + n * size <= i32::MAX
                    },
                forall|j: int|
                    #![trigger self.movers()[j]]
                    0 <= j < n_movers ==> stats_advanced(
                        old(self).movers()[j].stats(),
                        self.movers()[j].stats(),
                        attempts_added(j, sweep as int, 0, 0, size as int),
                    ) && self.movers()[j].step_size() == old(self).movers()[j].step_size(),
                forall|b: i64, a: i64|
                    self.criterion().must_accept(b, a) == old(self).criterion().must_accept(
                        b,
                        a,
                    ),
                (forall|b: i64, a: i64| old(self).criterion().must_accept(b, a))
                    ==> forall|j: int|
                    #![trigger self.movers()[j]]
                    0 <= j < n_movers ==> stats_all_succeeded(
                        old(self).movers()[j].stats(),
                        self.movers()[j].stats(),
                        attempts_added(j, sweep as int, 0, 0, size as int),
                    ),
            decreases n - sweep,
        {
            let mut i_mover: usize = 0;
            while i_mover < n_movers
                invariant
                    sweep < n,
                    i_mover <= n_movers,
                    size == coords.elems().len(),
                    n_movers == self.movers().len(),
                    self.movers().len() == old(self).movers().len(),
                    coords.elems().len() == old(coords).elems().len(),
                    future_coords.elems() == coords.elems(),
                    forall|i: int|
                        #![trigger old(self).movers()[i]]
                        0 <= i < n_movers ==> {
                            let s = old(self).movers()[i].stats();
                            0 <= s.n_succ && 0 <= s.n_failed && s.attempts() + n * size
                                <= i32::MAX
                        },
                    forall|j: int|
                        #![trigger self.movers()[j]]
                        0 <= j < n_movers ==> stats_advanced(
                            old(self).movers()[j].stats(),
                            self.movers()[j].stats(),
                            attempts_added(j, sweep as int, i_mover as int, 0, size as int),
                        ) && self.movers()[j].step_size() == old(self).movers()[j].step_size(),
                    forall|b: i64, a: i64|
                        self.criterion().must_accept(b, a) == old(self).criterion().must_accept(
                            b,
                            a,
                        ),
                    (forall|b: i64, a: i64| old(self).criterion().must_accept(b, a))
                        ==> forall|j: int|
                        #![trigger self.movers()[j]]
                        0 <= j < n_movers ==> stats_all_succeeded(
                            old(self).movers()[j].stats(),
                            self.movers()[j].stats(),
                            attempts_added(j, sweep as int, i_mover as int, 0, size as int),
                        ),
                decreases n_movers - i_mover,
            {
                let mut attempt: usize = 0;
                while attempt < size
                    invariant
                        sweep < n,
                        i_mover < n_movers,
                        attempt <= size,
                        size == coords.elems().len(),
                        n_movers == self.movers().len(),
                        self.movers().len() == old(self).movers().len(),
                        coords.elems().len() == old(coords).elems().len(),
                        future_coords.elems() == coords.elems(),
                        forall|i: int|
                            #![trigger old(self).movers()[i]]
                            0 <= i < n_movers ==> {
                                let s = old(self).movers()[i].stats();
                                0 <= s.n_succ && 0 <= s.n_failed && s.attempts() + n * size
                                    <= i32::MAX
                            },
                        forall|j: int|
                            #![trigger self.movers()[j]]
                            0 <= j < n_movers ==> stats_advanced(
                                old(self).movers()[j].stats(),
                                self.movers()[j].stats(),
                                attempts_added(
                                    j,
                                    sweep as int,
                                    i_mover as int,
                                    attempt as int,
                                    size as int,
                                ),
                            ) && self.movers()[j].step_size() == old(
                                self,
                            ).movers()[j].step_size(),
                        forall|b: i64, a: i64|
                            self.criterion().must_accept(b, a) == old(
                                self,
                            ).criterion().must_accept(b, a),
                        (forall|b: i64, a: i64| old(self).criterion().must_accept(b, a))
                            ==> forall|j: int|
                            #![trigger self.movers()[j]]
                            0 <= j < n_movers ==> stats_all_succeeded(
                                old(self).movers()[j].stats(),
                                self.movers()[j].stats(),
                                attempts_added(
                                    j,
                                    sweep as int,
                                    i_mover as int,
                                    attempt as int,
                                    size as int,
                                ),
                            ),
                    decreases size - attempt,
                {
                    let range: IndexRange;
                    {
                        let mover = &mut self.movers[i_mover];
                        range = mover.perturb(&mut future_coords);
                    }
                    let (en_before, en_after) = energy.delta_energy_by_pos(
                        &*coords,
                        &future_coords,
                        range.start,
                    );
                    proof {
                        assert(attempts_added(
                            i_mover as int,
                            sweep as int,
                            i_mover as int,
                            attempt as int,
                            size as int,
                        ) < n * size) by (nonlinear_arith)
                            requires
                                0 <= sweep < n,
                                0 <= attempt < size,
                                0 <= i_mover,
                        ;
                    }
                    if self.acceptance_criterion.check(en_before, en_after) {
                        sync_range(coords, &future_coords, range.start, range.end);
                        proof {
                            assert(coords.elems() =~= future_coords.elems());
                        }
                        let mover = &mut self.movers[i_mover];
                        mover.add_success();
                    } else {
                        proof {
                            // the criterion refused, so this was no must-accept pair
                            assert(!old(self).criterion().must_accept(en_before, en_after));
                        }
                        let ghost perturbed = future_coords.elems();
                        sync_range(&mut future_coords, &*coords, range.start, range.end);
                        proof {
                            lemma_rollback_restores(
                                coords.elems(),
                                perturbed,
                                range.start as int,
                                range.end as int,
                            );
                        }
                        let mover = &mut self.movers[i_mover];
                        mover.add_failure();
                    }
                    attempt += 1;
                }
                i_mover += 1;
            }
            proof {
                assert(forall|j: int|
                    0 <= j < n_movers ==> attempts_added(
                        j,
                        sweep as int,
                        n_movers as int,
                        0,
                        size as int,
                    ) == attempts_added(j, sweep + 1, 0, 0, size as int)) by (nonlinear_arith);
            }
            sweep += 1;
        }
    }
}

impl<T: AcceptanceCriterion, S: System, M: Mover<S>> MoversSet<S, M> for MCProtocol<T, S, M> {
    closed spec fn movers(&self) -> Seq<M> {
        self.movers@
    }

    fn add_mover(&mut self, perturb_fn: M) {
        self.movers.push(perturb_fn);
    }

    fn get_mover(&mut self, which_one: usize) -> (mover: &mut M) {
        &mut self.movers[which_one]
    }

    fn count_movers(&self) -> (n: usize) {
        self.movers.len()
    }
}

impl<T: AcceptanceCriterion, S: System, M: Mover<S>> Sampler<S, M> for MCProtocol<T, S, M> {
    fn make_sweeps<E: Energy<S>>(&mut self, n: usize, coords: &mut S, energy: &E) {
        MCProtocol::make_sweeps(self, n, coords, energy)
    }
}

impl<T: AcceptanceCriterion, S: System, M: Mover<S>> MoversSetSampler<S, M> for MCProtocol<
    T,
    S,
    M,
> {

}

} // verus!
