//! Scenarios for the adaptive step-size feedback control.

use simulations_base::{
    AcceptanceCriterion, AdaptiveMCProtocol, Energy, MCProtocol, Mover, MoversSet,
    SequenceSystem, SingleAAMover, StepBounds, StepFactor,
};

struct ZeroEnergy;

impl Energy<SequenceSystem> for ZeroEnergy {
    fn energy(&self, _system: &SequenceSystem) -> i64 {
        0
    }
    fn energy_by_pos(&self, _system: &SequenceSystem, _pos: usize) -> i64 {
        0
    }
    fn delta_energy_by_pos(
        &self,
        _old_system: &SequenceSystem,
        _new_system: &SequenceSystem,
        _pos: usize,
    ) -> (i64, i64) {
        (0, 0)
    }
}

struct AlwaysAccept;

impl AcceptanceCriterion for AlwaysAccept {
    fn check(&mut self, _energy_before: i64, _energy_after: i64) -> bool {
        true
    }
}

struct AlwaysReject;

impl AcceptanceCriterion for AlwaysReject {
    fn check(&mut self, _energy_before: i64, _energy_after: i64) -> bool {
        false
    }
}

/// Accepts a fixed leading share of each five consecutive attempts, so the
/// observed rate is exactly `accepted_of_five / 5`.
struct CyclicCriterion {
    accepted_of_five: u64,
    calls: u64,
}

impl AcceptanceCriterion for CyclicCriterion {
    fn check(&mut self, _energy_before: i64, _energy_after: i64) -> bool {
        let accept = self.calls % 5 < self.accepted_of_five;
        self.calls += 1;
        accept
    }
}

fn adaptive_with_range<T: AcceptanceCriterion>(
    criterion: T,
    r0: u64,
) -> AdaptiveMCProtocol<SequenceSystem, SingleAAMover, MCProtocol<T, SequenceSystem, SingleAAMover>>
{
    let mut protocol: MCProtocol<T, SequenceSystem, SingleAAMover> = MCProtocol::new(criterion);
    protocol.add_mover(SingleAAMover::new(20));
    protocol.get_mover(0).set_max_range(r0);
    AdaptiveMCProtocol::new(protocol)
}

#[test]
fn allowed_range_is_fifth_to_fivefold() {
    let adaptive = adaptive_with_range(AlwaysAccept, 1000);
    assert_eq!(adaptive.allowed_range(0), StepBounds { lo: 200, hi: 5000 });
    assert_eq!(adaptive.target_rate(), 400);
    assert_eq!(adaptive.factor(), StepFactor { num: 19, den: 20 });
}

#[test]
fn step_at_ceiling_never_exceeds_it() {
    // the observed rate (100%) is far above target + dead band, so the
    // step would grow, but the ceiling holds it
    let mut adaptive = adaptive_with_range(AlwaysAccept, 1000);
    let mut system = SequenceSystem::new(5);
    adaptive.get_mover(0).set_max_range(5000);
    for _ in 0..8 {
        adaptive.make_sweeps(2, &mut system, &ZeroEnergy);
        assert_eq!(adaptive.get_mover(0).max_range(), 5000);
    }
}

#[test]
fn step_never_shrinks_below_the_floor() {
    // the observed rate (0%) is far below target - dead band, so the step
    // shrinks by 19/20 per batch until the floor catches it
    let mut adaptive = adaptive_with_range(AlwaysReject, 1000);
    let mut system = SequenceSystem::new(5);
    for _ in 0..40 {
        adaptive.make_sweeps(1, &mut system, &ZeroEnergy);
        assert!(adaptive.get_mover(0).max_range() >= 200);
    }
    assert_eq!(adaptive.get_mover(0).max_range(), 200);
}

#[test]
fn too_few_acceptances_shrink_the_step_exactly() {
    let mut adaptive = adaptive_with_range(AlwaysReject, 1000);
    let mut system = SequenceSystem::new(5);
    adaptive.make_sweeps(1, &mut system, &ZeroEnergy);
    // 1000 * 19 / 20
    assert_eq!(adaptive.get_mover(0).max_range(), 950);
}

#[test]
fn too_many_acceptances_grow_the_step_exactly() {
    let mut adaptive = adaptive_with_range(AlwaysAccept, 1000);
    let mut system = SequenceSystem::new(5);
    adaptive.make_sweeps(1, &mut system, &ZeroEnergy);
    // 1000 * 20 / 19, rounded down
    assert_eq!(adaptive.get_mover(0).max_range(), 1052);
}

#[test]
fn a_rate_inside_the_dead_band_leaves_the_step_alone() {
    // 2 acceptances out of each 5 attempts: exactly the 40% target
    let criterion = CyclicCriterion { accepted_of_five: 2, calls: 0 };
    let mut adaptive = adaptive_with_range(criterion, 1000);
    let mut system = SequenceSystem::new(5);
    adaptive.make_sweeps(1, &mut system, &ZeroEnergy);
    assert_eq!(adaptive.get_mover(0).max_range(), 1000);
}

#[test]
fn the_wrapper_conserves_statistics() {
    let mut adaptive = adaptive_with_range(AlwaysAccept, 1000);
    let mut system = SequenceSystem::new(6);
    adaptive.make_sweeps(3, &mut system, &ZeroEnergy);
    let stats = adaptive.get_mover(0).acceptance_statistics();
    assert_eq!(stats.n_succ + stats.n_failed, 18);
}

#[test]
fn target_rate_and_factor_are_adjustable() {
    let mut adaptive = adaptive_with_range(AlwaysAccept, 1000);
    adaptive.set_target_rate(200);
    adaptive.set_factor(StepFactor { num: 9, den: 10 });
    assert_eq!(adaptive.target_rate(), 200);
    assert_eq!(adaptive.factor(), StepFactor { num: 9, den: 10 });
}
