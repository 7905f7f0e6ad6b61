//! Acceptance bookkeeping: counters of accepted and rejected moves, with
//! cumulative and windowed success-rate queries.

use vstd::prelude::*;

verus! {

/// Counters of accepted (`n_succ`) and rejected (`n_failed`) moves.
///
/// The counters are monotonically non-decreasing and are owned exclusively
/// by one mover.  Success rates are reported in thousandths (per-mille),
/// rounded down; a rate over zero attempts is defined as zero.
#[derive(Clone, Copy, Debug, PartialEq, Eq, Structural)]
pub struct AcceptanceStatistics {
    pub n_succ: i32,
    pub n_failed: i32,
}

impl AcceptanceStatistics {
    /// Total number of attempted moves recorded so far.
    pub open spec fn attempts(self) -> int {
        self.n_succ + self.n_failed
    }

    /// The success ratio `succ / att` in per-mille, rounded down;
    /// zero when there were no attempts.
    pub open spec fn rate_permille(succ: int, att: int) -> int {
        if att == 0 {
            0
        } else {
            1000 * succ / att
        }
    }

    /// Cumulative success rate in per-mille, rounded down.
    pub fn success_rate(&self) -> (r: u32)
        requires
            0 <= self.n_succ,
            0 <= self.n_failed,
            self.attempts() <= i32::MAX,
        ensures
            r == Self::rate_permille(self.n_succ as int, self.attempts()),
    {
        let sum: i64 = self.n_succ as i64 + self.n_failed as i64;
        if sum == 0 {
            return 0;
        }
        proof {
            lemma_rate_permille_bounds(self.n_succ as int, sum as int);
        }
        (1000 * self.n_succ as i64 / sum) as u32
    }

    /// Success rate in per-mille over the counter deltas since a previously
    /// captured snapshot, rounded down; zero when nothing was attempted in
    /// between.
    pub fn recent_success_rate(&self, prev_stats: &AcceptanceStatistics) -> (r: u32)
        requires
            0 <= prev_stats.n_succ <= self.n_succ,
            0 <= prev_stats.n_failed <= self.n_failed,
            self.attempts() <= i32::MAX,
        ensures
            r == Self::rate_permille(
                self.n_succ - prev_stats.n_succ,
                self.attempts() - prev_stats.attempts(),
            ),
    {
        let succ: i64 = self.n_succ as i64 - prev_stats.n_succ as i64;
        let fail: i64 = self.n_failed as i64 - prev_stats.n_failed as i64;
        let sum: i64 = succ + fail;
        if sum == 0 {
            return 0;
        }
        proof {
            lemma_rate_permille_bounds(succ as int, sum as int);
        }
        (1000 * succ / sum) as u32
    }
}

/// A success ratio of `succ` out of `sum` attempts, scaled to per-mille,
/// always lands in `0 ..= 1000`.
proof fn lemma_rate_permille_bounds(succ: int, sum: int)
    requires
        0 <= succ <= sum,
        1 <= sum,
    ensures
        0 <= 1000 * succ / sum <= 1000,
{
    vstd::arithmetic::div_mod::lemma_div_pos_is_pos(1000 * succ, sum);
    vstd::arithmetic::div_mod::lemma_div_is_ordered(1000 * succ, 1000 * sum, sum);
    vstd::arithmetic::div_mod::lemma_div_by_multiple(1000, sum);
}

impl Default for AcceptanceStatistics {
    /// Fresh counters: no successes, no failures.
    fn default() -> (r: Self)
        ensures
            r.n_succ == 0,
            r.n_failed == 0,
    {
        AcceptanceStatistics { n_succ: 0, n_failed: 0 }
    }
}

/// The combined number of attempts recorded by a collection of counters.
pub open spec fn total_attempts(stats: Seq<AcceptanceStatistics>) -> int
    decreases stats.len(),
{
    if stats.len() == 0 {
        0
    } else {
        total_attempts(stats.drop_last()) + stats.last().attempts()
    }
}

/// Statistics conservation: when each of `k` counters records exactly
/// `added` more attempts — as every mover does during a batch of sweeps —
/// the combined total grows by exactly `k * added`.
pub proof fn lemma_statistics_conservation(
    before: Seq<AcceptanceStatistics>,
    after: Seq<AcceptanceStatistics>,
    added: int,
)
    requires
        before.len() == after.len(),
        forall|i: int|
            0 <= i < before.len() ==> (#[trigger] after[i]).attempts() == before[i].attempts()
                + added,
    ensures
        total_attempts(after) == total_attempts(before) + before.len() * added,
    decreases before.len(),
{
    if before.len() > 0 {
        lemma_statistics_conservation(before.drop_last(), after.drop_last(), added);
        assert((before.len() - 1) * added + added == before.len() * added) by (nonlinear_arith);
    }
}

} // verus!
