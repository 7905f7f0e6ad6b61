//! Exact values for the acceptance statistics queries.

use simulations_base::AcceptanceStatistics;

#[test]
fn success_rate_of_fresh_counters_is_zero() {
    let stats = AcceptanceStatistics::default();
    assert_eq!(stats.n_succ, 0);
    assert_eq!(stats.n_failed, 0);
    assert_eq!(stats.success_rate(), 0);
}

#[test]
fn success_rate_is_the_ratio_in_permille() {
    let stats = AcceptanceStatistics { n_succ: 3, n_failed: 1 };
    assert_eq!(stats.success_rate(), 750);
    let stats = AcceptanceStatistics { n_succ: 1, n_failed: 2 };
    assert_eq!(stats.success_rate(), 333);
    let stats = AcceptanceStatistics { n_succ: 5, n_failed: 0 };
    assert_eq!(stats.success_rate(), 1000);
    let stats = AcceptanceStatistics { n_succ: 0, n_failed: 9 };
    assert_eq!(stats.success_rate(), 0);
}

#[test]
fn recent_success_rate_uses_only_the_deltas() {
    let before = AcceptanceStatistics { n_succ: 10, n_failed: 30 };
    let after = AcceptanceStatistics { n_succ: 13, n_failed: 31 };
    assert_eq!(after.recent_success_rate(&before), 750);
}

#[test]
fn recent_success_rate_without_new_attempts_is_zero() {
    let stats = AcceptanceStatistics { n_succ: 4, n_failed: 6 };
    assert_eq!(stats.recent_success_rate(&stats.clone()), 0);
    assert_eq!(stats.success_rate(), 400);
}
