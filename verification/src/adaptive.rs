//! Feedback control of mover step sizes: a wrapper around any sampler that
//! observes recent acceptance rates after each batch of sweeps and rescales
//! each mover's step size toward a target rate, clamped to an allowed range
//! derived from the mover's initial step size.

use core::marker::PhantomData;
use vstd::prelude::*;
use crate::energy::Energy;
use crate::montecarlo::{Mover, MoversSet, MoversSetSampler, Sampler};
use crate::stats::AcceptanceStatistics;
use crate::system::System;

verus! {

/// Half the dead band around the target acceptance rate, in per-mille:
/// a recent rate within `target_rate` plus or minus this margin leaves the
/// step size unchanged.
pub const RATE_DEAD_BAND_PERMILLE: u32 = 50;

/// A rescaling factor for step sizes, as an exact ratio `num / den`.
#[derive(Clone, Copy, Debug, PartialEq, Eq, Structural)]
pub struct StepFactor {
    pub num: u64,
    pub den: u64,
}

/// The permanent allowed range of one mover's step size, both bounds
/// inclusive.
#[derive(Clone, Copy, Debug, PartialEq, Eq, Structural)]
pub struct StepBounds {
    pub lo: u64,
    pub hi: u64,
}

/// Whether the exact success ratio `succ / att` lies strictly below
/// `pm / 1000`.  A ratio over zero attempts counts as zero.
pub open spec fn rate_below_permille(succ: int, att: int, pm: int) -> bool {
    if att == 0 {
        0 < pm
    } else {
        1000 * succ < pm * att
    }
}

/// Whether the exact success ratio `succ / att` lies strictly above
/// `pm / 1000`.  A ratio over zero attempts counts as zero.
pub open spec fn rate_above_permille(succ: int, att: int, pm: int) -> bool {
    if att == 0 {
        0 > pm
    } else {
        1000 * succ > pm * att
    }
}

/// The allowed range derived once from a mover's initial step size `r0`:
/// one fifth of it up to five times it, the ceiling saturating at
/// `u64::MAX`.
pub open spec fn step_bounds_for(r0: u64) -> StepBounds {
    StepBounds {
        lo: (r0 as int / 5) as u64,
        hi: if r0 as int * 5 > u64::MAX as int {
            u64::MAX
        } else {
            (r0 as int * 5) as u64
        },
    }
}

/// One feedback step before clamping: shrink the step by `f` when the
/// recent rate `succ / att` fell below the dead band under `target_pm`
/// per-mille, grow it by `f` when the rate rose above the dead band, and
/// keep it otherwise.  A degenerate factor with a zero term adjusts
/// nothing.
pub open spec fn adjusted_step(
    step: u64,
    f: StepFactor,
    succ: int,
    att: int,
    target_pm: int,
) -> int {
    if f.num == 0 || f.den == 0 {
        step as int
    } else if rate_below_permille(succ, att, target_pm - RATE_DEAD_BAND_PERMILLE) {
        step as int * f.num as int / f.den as int
    } else if rate_above_permille(succ, att, target_pm + RATE_DEAD_BAND_PERMILLE) {
        step as int * f.den as int / f.num as int
    } else {
        step as int
    }
}

/// `v` clamped into the allowed range, ceiling first as the sweep
/// protocol's retune step does it.
pub open spec fn clamped_step(v: int, b: StepBounds) -> u64 {
    if v > b.hi {
        b.hi
    } else if v < b.lo {
        b.lo
    } else {
        v as u64
    }
}

/// The step size after one full retune of a mover whose counters moved
/// from `before` to `now` during the batch.
pub open spec fn retuned_step(
    step: u64,
    f: StepFactor,
    before: AcceptanceStatistics,
    now: AcceptanceStatistics,
    target_pm: int,
    b: StepBounds,
) -> u64 {
    clamped_step(
        adjusted_step(step, f, now.n_succ - before.n_succ, now.attempts() - before.attempts(),
            target_pm),
        b,
    )
}

/// The clamp law: whatever the batch's statistics, the factor and the
/// target are, a retuned step size lands inside the mover's allowed
/// range — it never sinks below the floor nor rises above the ceiling.
pub proof fn lemma_retuned_step_in_bounds(
    step: u64,
    f: StepFactor,
    before: AcceptanceStatistics,
    now: AcceptanceStatistics,
    target_pm: int,
    b: StepBounds,
)
    requires
        b.lo <= b.hi,
    ensures
        b.lo <= retuned_step(step, f, before, now, target_pm, b) <= b.hi,
{
}

/// Wraps a sampler; after each batch of sweeps it retunes every mover's
/// step size toward `target_rate` (in per-mille) by the ratio `factor`,
/// clamped into the allowed range derived from the mover's step size when
/// the wrapper first saw it.
pub struct AdaptiveMCProtocol<S: System, M: Mover<S>, SMP: MoversSetSampler<S, M>> {
    target_rate: u32,
    factor: StepFactor,
    sampler: SMP,
    allowed_ranges: Vec<StepBounds>,
    _marker: PhantomData<(S, M)>,
}

impl<S: System, M: Mover<S>, SMP: MoversSetSampler<S, M>> AdaptiveMCProtocol<S, M, SMP> {
    /// The target acceptance rate, in per-mille.
    pub closed spec fn spec_target_rate(&self) -> u32 {
        self.target_rate
    }

    /// The step rescaling factor.
    pub closed spec fn spec_factor(&self) -> StepFactor {
        self.factor
    }

    /// The allowed step range of each mover.
    pub closed spec fn allowed(&self) -> Seq<StepBounds> {
        self.allowed_ranges@
    }

    /// Wrap `sampler`, deriving each current mover's permanent allowed
    /// step range from its current step size.  The target rate starts at
    /// 400 per-mille and the factor at 19/20.
    pub fn new(sampler: SMP) -> (r: AdaptiveMCProtocol<S, M, SMP>)
        ensures
            r.movers() == sampler.movers(),
            r.spec_target_rate() == 400,
            r.spec_factor() == (StepFactor { num: 19, den: 20 }),
            r.allowed().len() == sampler.movers().len(),
            forall|i: int|
                0 <= i < sampler.movers().len() ==> r.allowed()[i] == step_bounds_for(
                    #[trigger] sampler.movers()[i].step_size(),
                ),
    {
        let mut sampler = sampler;
        let mut allowed_ranges: Vec<StepBounds> = Vec::new();
        let count = sampler.count_movers();
        let ghost movers0 = sampler.movers();
        let mut i: usize = 0;
        while i < count
            invariant
                i <= count,
                count == movers0.len(),
                sampler.movers() == movers0,
                allowed_ranges@.len() == i,
                forall|j: int|
                    0 <= j < i ==> allowed_ranges@[j] == step_bounds_for(
                        #[trigger] movers0[j].step_size(),
                    ),
            decreases count - i,
        {
            let r0: u64;
            {
                let mover = sampler.get_mover(i);
                r0 = mover.max_range();
            }
            proof {
                assert(sampler.movers() =~= movers0);
            }
            allowed_ranges.push(bounds_for(r0));
            i += 1;
        }
        AdaptiveMCProtocol {
            target_rate: 400,
            factor: StepFactor { num: 19, den: 20 },
            sampler,
            allowed_ranges,
            _marker: PhantomData,
        }
    }

    /// The target acceptance rate, in per-mille.
    pub fn target_rate(&self) -> (r: u32)
        ensures
            r == self.spec_target_rate(),
    {
        self.target_rate
    }

    /// Change the target acceptance rate (per-mille); allowed at any time
    /// between batches.
    pub fn set_target_rate(&mut self, rate_permille: u32)
        ensures
            final(self).spec_target_rate() == rate_permille,
            final(self).spec_factor() == old(self).spec_factor(),
            final(self).allowed() == old(self).allowed(),
            final(self).movers() == old(self).movers(),
    {
        self.target_rate = rate_permille;
    }

    /// The step rescaling factor.
    pub fn factor(&self) -> (r: StepFactor)
        ensures
            r == self.spec_factor(),
    {
        self.factor
    }

    /// Change the step rescaling factor; allowed at any time between
    /// batches.  A factor with a zero term disables rescaling.
    pub fn set_factor(&mut self, factor: StepFactor)
        ensures
            final(self).spec_factor() == factor,
            final(self).spec_target_rate() == old(self).spec_target_rate(),
            final(self).allowed() == old(self).allowed(),
            final(self).movers() == old(self).movers(),
    {
        self.factor = factor;
    }

    /// The allowed step range of the mover `which_one`.
    pub fn allowed_range(&self, which_one: usize) -> (b: StepBounds)
        requires
            which_one < self.allowed().len(),
        ensures
            b == self.allowed()[which_one as int],
    {
        self.allowed_ranges[which_one]
    }
}

impl<S: System, M: Mover<S>, SMP: MoversSetSampler<S, M>> AdaptiveMCProtocol<S, M, SMP> {
    /// Hand a mover over to the wrapped sampler, deriving its permanent
    /// allowed step range from its step size as handed over.
    pub fn add_mover(&mut self, perturb_fn: M)
        ensures
            final(self).movers() == old(self).movers().push(perturb_fn),
            final(self).allowed() == old(self).allowed().push(
                step_bounds_for(perturb_fn.step_size()),
            ),
            final(self).spec_target_rate() == old(self).spec_target_rate(),
            final(self).spec_factor() == old(self).spec_factor(),
    {
        let r0 = perturb_fn.max_range();
        self.allowed_ranges.push(bounds_for(r0));
        self.sampler.add_mover(perturb_fn);
    }

    /// Retune every mover: compare its recent success rate — the rate over
    /// the counter deltas since the `stats_before` snapshot — against the
    /// dead band around the target rate, rescale its step size by the
    /// factor accordingly, and clamp the result into its allowed range.
    /// A mover without a recorded allowed range keeps its step size.
    pub fn retune(&mut self, stats_before: &Vec<AcceptanceStatistics>)
        requires
            old(self).movers().len() <= stats_before@.len(),
        ensures
            final(self).movers().len() == old(self).movers().len(),
            final(self).allowed() == old(self).allowed(),
            final(self).spec_target_rate() == old(self).spec_target_rate(),
            final(self).spec_factor() == old(self).spec_factor(),
            forall|i: int|
                #![trigger final(self).movers()[i]]
                0 <= i < old(self).movers().len() ==> final(self).movers()[i].stats() == old(
                    self,
                ).movers()[i].stats(),
            forall|i: int|
                #![trigger final(self).movers()[i]]
                0 <= i < old(self).movers().len() ==> final(self).movers()[i].step_size() == (
                if i < old(self).allowed().len() {
                    retuned_step(
                        old(self).movers()[i].step_size(),
                        old(self).spec_factor(),
                        stats_before@[i],
                        old(self).movers()[i].stats(),
                        old(self).spec_target_rate() as int,
                        old(self).allowed()[i],
                    )
                } else {
                    old(self).movers()[i].step_size()
                }),
    {
        let count = self.sampler.count_movers();
        let n_allowed = self.allowed_ranges.len();
        let limit = if count < n_allowed {
            count
        } else {
            n_allowed
        };
        let mut i: usize = 0;
        while i < limit
            invariant
                i <= limit,
                limit <= count,
                limit <= n_allowed,
                limit == if count < n_allowed { count as int } else { n_allowed as int },
                count == old(self).movers().len(),
                n_allowed == old(self).allowed().len(),
                stats_before@.len() >= count,
                self.sampler.movers().len() == count,
                self.allowed_ranges@ == old(self).allowed(),
                self.target_rate == old(self).spec_target_rate(),
                self.factor == old(self).spec_factor(),
                forall|j: int|
                    #![trigger self.sampler.movers()[j]]
                    i <= j < count ==> self.sampler.movers()[j] == old(self).movers()[j],
                forall|j: int|
                    #![trigger self.sampler.movers()[j]]
                    0 <= j < i ==> self.sampler.movers()[j].stats() == old(
                        self,
                    ).movers()[j].stats() && self.sampler.movers()[j].step_size() == retuned_step(
                        old(self).movers()[j].step_size(),
                        old(self).spec_factor(),
                        stats_before@[j],
                        old(self).movers()[j].stats(),
                        old(self).spec_target_rate() as int,
                        old(self).allowed()[j],
                    ),
            decreases limit - i,
        {
            let b = self.allowed_ranges[i];
            let f = self.factor;
            let target = self.target_rate;
            let prev = stats_before[i];
            let ghost movers_in = self.sampler.movers();
            let now: AcceptanceStatistics;
            let step: u64;
            {
                let mover = self.sampler.get_mover(i);
                now = mover.acceptance_statistics();
                step = mover.max_range();
            }
            proof {
                assert(self.sampler.movers() =~= movers_in);
            }
            let succ_delta: i64 = now.n_succ as i64 - prev.n_succ as i64;
            let att_delta: i64 = (now.n_succ as i64 + now.n_failed as i64) - (prev.n_succ as i64
                + prev.n_failed as i64);
            let adjusted: u128 = if f.num == 0 || f.den == 0 {
                step as u128
            } else if rate_below(
                succ_delta,
                att_delta,
                target as i64 - RATE_DEAD_BAND_PERMILLE as i64,
            ) {
                proof {
                    lemma_mul_u64_fits_u128(step as int, f.num as int);
                }
                step as u128 * f.num as u128 / f.den as u128
            } else if rate_above(
                succ_delta,
                att_delta,
                target as i64 + RATE_DEAD_BAND_PERMILLE as i64,
            ) {
                proof {
                    lemma_mul_u64_fits_u128(step as int, f.den as int);
                }
                step as u128 * f.den as u128 / f.num as u128
            } else {
                step as u128
            };
            let new_step: u64 = if adjusted > b.hi as u128 {
                b.hi
            } else if adjusted < b.lo as u128 {
                b.lo
            } else {
                adjusted as u64
            };
            {
                let mover = self.sampler.get_mover(i);
                mover.set_max_range(new_step);
            }
            i += 1;
        }
    }

    /// Run `n` sweeps through the wrapped sampler, then retune every
    /// mover's step size from the acceptance statistics the batch
    /// produced.  Each retuned step size lands inside the mover's allowed
    /// range, whatever the batch did.
    pub fn make_sweeps<E: Energy<S>>(&mut self, n: usize, coords: &mut S, energy: &E)
        requires
            forall|i: int|
                #![trigger old(self).movers()[i]]
                0 <= i < old(self).movers().len() ==> {
                    let s = old(self).movers()[i].stats();
                    0 <= s.n_succ && 0 <= s.n_failed && s.attempts() + n
                        * old(coords).elems().len() <= i32::MAX
                },
        ensures
            final(self).movers().len() == old(self).movers().len(),
            final(coords).elems().len() == old(coords).elems().len(),
            forall|i: int|
                #![trigger old(self).movers()[i]]
                0 <= i < old(self).movers().len() ==> {
                    let s0 = old(self).movers()[i].stats();
                    let s1 = final(self).movers()[i].stats();
                    s0.n_succ <= s1.n_succ && s0.n_failed <= s1.n_failed && s1.attempts()
                        == s0.attempts() + n * old(coords).elems().len()
                },
            final(self).allowed() == old(self).allowed(),
            final(self).spec_target_rate() == old(self).spec_target_rate(),
            final(self).spec_factor() == old(self).spec_factor(),
            forall|i: int|
                #![trigger final(self).movers()[i]]
                0 <= i < old(self).movers().len() && i < old(self).allowed().len() && old(
                    self,
                ).allowed()[i].lo <= old(self).allowed()[i].hi ==> old(self).allowed()[i].lo
                    <= final(self).movers()[i].step_size() <= old(self).allowed()[i].hi,
    {
        let count = self.sampler.count_movers();
        let mut stats_before: Vec<AcceptanceStatistics> = Vec::new();
        let mut i: usize = 0;
        while i < count
            invariant
                i <= count,
                count == old(self).movers().len(),
                self.sampler.movers() == old(self).movers(),
                self.allowed_ranges@ == old(self).allowed(),
                self.target_rate == old(self).spec_target_rate(),
                self.factor == old(self).spec_factor(),
                stats_before@.len() == i,
                forall|j: int|
                    0 <= j < i ==> stats_before@[j] == old(self).movers()[j].stats(),
            decreases count - i,
        {
            let ghost movers_in = self.sampler.movers();
            let snapshot: AcceptanceStatistics;
            {
                let mover = self.sampler.get_mover(i);
                snapshot = mover.acceptance_statistics();
            }
            proof {
                assert(self.sampler.movers() =~= movers_in);
            }
            stats_before.push(snapshot);
            i += 1;
        }
        self.sampler.make_sweeps(n, coords, energy);
        self.retune(&stats_before);
    }
}

/// The product of two values in `i64` range stays well inside `i128`
/// range.
proof fn lemma_mul_i64_fits_i128(a: int, b: int)
    by (nonlinear_arith)
    requires
        i64::MIN <= a <= i64::MAX,
        i64::MIN <= b <= i64::MAX,
    ensures
        i128::MIN <= a * b <= i128::MAX,
{
}

/// The product of two values in `u64` range stays inside `u128` range.
proof fn lemma_mul_u64_fits_u128(a: int, b: int)
    by (nonlinear_arith)
    requires
        0 <= a <= u64::MAX,
        0 <= b <= u64::MAX,
    ensures
        0 <= a * b <= u128::MAX,
{
}

/// Whether the exact ratio `succ / att` lies strictly below `pm / 1000`.
fn rate_below(succ: i64, att: i64, pm: i64) -> (r: bool)
    ensures
        r == rate_below_permille(succ as int, att as int, pm as int),
{
    if att == 0 {
        0 < pm
    } else {
        proof {
            lemma_mul_i64_fits_i128(pm as int, att as int);
        }
        1000 * (succ as i128) < (pm as i128) * (att as i128)
    }
}

/// Whether the exact ratio `succ / att` lies strictly above `pm / 1000`.
fn rate_above(succ: i64, att: i64, pm: i64) -> (r: bool)
    ensures
        r == rate_above_permille(succ as int, att as int, pm as int),
{
    if att == 0 {
        0 > pm
    } else {
        proof {
            lemma_mul_i64_fits_i128(pm as int, att as int);
        }
        1000 * (succ as i128) > (pm as i128) * (att as i128)
    }
}

impl<S: System, M: Mover<S>, SMP: MoversSetSampler<S, M>> MoversSet<S, M> for AdaptiveMCProtocol<
    S,
    M,
    SMP,
> {
    closed spec fn movers(&self) -> Seq<M> {
        self.sampler.movers()
    }

    fn add_mover(&mut self, perturb_fn: M) {
        AdaptiveMCProtocol::add_mover(self, perturb_fn)
    }

    fn get_mover(&mut self, which_one: usize) -> (mover: &mut M) {
        self.sampler.get_mover(which_one)
    }

    fn count_movers(&self) -> (n: usize) {
        self.sampler.count_movers()
    }
}

impl<S: System, M: Mover<S>, SMP: MoversSetSampler<S, M>> Sampler<S, M> for AdaptiveMCProtocol<
    S,
    M,
    SMP,
> {
    fn make_sweeps<E: Energy<S>>(&mut self, n: usize, coords: &mut S, energy: &E) {
        AdaptiveMCProtocol::make_sweeps(self, n, coords, energy)
    }
}

impl<S: System, M: Mover<S>, SMP: MoversSetSampler<S, M>> MoversSetSampler<
    S,
    M,
> for AdaptiveMCProtocol<S, M, SMP> {

}

/// The allowed range derived from an initial step size `r0`.
fn bounds_for(r0: u64) -> (b: StepBounds)
    ensures
        b == step_bounds_for(r0),
{
    let lo = r0 / 5;
    let hi = if r0 > u64::MAX / 5 {
        u64::MAX
    } else {
        r0 * 5
    };
    StepBounds { lo, hi }
}

} // verus!
