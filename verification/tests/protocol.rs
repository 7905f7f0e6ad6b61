//! Scenarios for the sweep protocol: acceptance, rejection, rollback, and
//! statistics conservation.

use simulations_base::{
    AcceptanceCriterion, Energy, MCProtocol, Mover, MoversSet, SequenceSystem, SingleAAMover,
    System,
};

/// An energy model that scores everything as zero.
struct ZeroEnergy;

impl Energy<SequenceSystem> for ZeroEnergy {
    fn energy(&self, _system: &SequenceSystem) -> i64 {
        0
    }
    fn energy_by_pos(&self, _system: &SequenceSystem, _pos: usize) -> i64 {
        0
    }
    fn delta_energy_by_pos(
        &self,
        _old_system: &SequenceSystem,
        _new_system: &SequenceSystem,
        _pos: usize,
    ) -> (i64, i64) {
        (0, 0)
    }
}

/// The Metropolis rule: accept a non-raising move outright, an uphill move
/// with probability `exp(-delta / temperature)`.
struct MetropolisCriterion {
    temperature: f64,
    state: u64,
}

impl MetropolisCriterion {
    fn new(temperature: f64) -> MetropolisCriterion {
        MetropolisCriterion {
            temperature,
            state: 0x9e3779b97f4a7c15,
        }
    }

    fn draw_unit(&mut self) -> f64 {
        self.state = self
            .state
            .wrapping_mul(6364136223846793005)
            .wrapping_add(1442695040888963407);
        (self.state >> 11) as f64 / (1u64 << 53) as f64
    }
}

impl AcceptanceCriterion for MetropolisCriterion {
    fn check(&mut self, energy_before: i64, energy_after: i64) -> bool {
        let delta_e = (energy_after - energy_before) as f64;
        delta_e <= 0.0 || self.draw_unit() <= (-delta_e / self.temperature).exp()
    }
}

/// Accepts every move.
struct AlwaysAccept;

impl AcceptanceCriterion for AlwaysAccept {
    fn check(&mut self, _energy_before: i64, _energy_after: i64) -> bool {
        true
    }
}

/// Rejects every move.
struct AlwaysReject;

impl AcceptanceCriterion for AlwaysReject {
    fn check(&mut self, _energy_before: i64, _energy_after: i64) -> bool {
        false
    }
}

#[test]
fn zero_energy_metropolis_accepts_every_move() {
    let mut system = SequenceSystem::new(4);
    let mut protocol: MCProtocol<MetropolisCriterion, SequenceSystem, SingleAAMover> =
        MCProtocol::new(MetropolisCriterion::new(1.0));
    protocol.add_mover(SingleAAMover::new(20));
    protocol.make_sweeps(1, &mut system, &ZeroEnergy);
    let stats = protocol.get_mover(0).acceptance_statistics();
    assert_eq!(stats.n_succ, 4);
    assert_eq!(stats.n_failed, 0);
}

#[test]
fn attempts_grow_by_sweeps_times_movers_times_size() {
    let mut system = SequenceSystem::new(5);
    let mut protocol: MCProtocol<MetropolisCriterion, SequenceSystem, SingleAAMover> =
        MCProtocol::new(MetropolisCriterion::new(1.0));
    protocol.add_mover(SingleAAMover::new(20));
    protocol.add_mover(SingleAAMover::new(4));
    protocol.make_sweeps(3, &mut system, &ZeroEnergy);
    let mut total = 0;
    for i in 0..protocol.count_movers() {
        let stats = protocol.get_mover(i).acceptance_statistics();
        assert_eq!(stats.n_succ + stats.n_failed, 15);
        total += stats.n_succ + stats.n_failed;
    }
    assert_eq!(total, 3 * 2 * 5);
}

#[test]
fn rejected_moves_leave_the_system_unchanged() {
    let mut system = SequenceSystem::from_values(vec![3, 7, 9, 2]);
    let mut protocol: MCProtocol<AlwaysReject, SequenceSystem, SingleAAMover> =
        MCProtocol::new(AlwaysReject);
    protocol.add_mover(SingleAAMover::new(20));
    protocol.make_sweeps(10, &mut system, &ZeroEnergy);
    assert_eq!(system.get(0), 3);
    assert_eq!(system.get(1), 7);
    assert_eq!(system.get(2), 9);
    assert_eq!(system.get(3), 2);
    let stats = protocol.get_mover(0).acceptance_statistics();
    assert_eq!(stats.n_succ, 0);
    assert_eq!(stats.n_failed, 40);
}

#[test]
fn accepted_moves_commit_the_drawn_residues() {
    // with a single residue type every redraw writes 0, so after enough
    // accepted random moves every position has been overwritten
    let mut system = SequenceSystem::from_values(vec![3, 7, 9, 2]);
    let mut protocol: MCProtocol<AlwaysAccept, SequenceSystem, SingleAAMover> =
        MCProtocol::new(AlwaysAccept);
    protocol.add_mover(SingleAAMover::new(1));
    protocol.make_sweeps(50, &mut system, &ZeroEnergy);
    for i in 0..system.size() {
        assert_eq!(system.get(i), 0);
    }
    let stats = protocol.get_mover(0).acceptance_statistics();
    assert_eq!(stats.n_succ, 200);
    assert_eq!(stats.n_failed, 0);
}

#[test]
fn sweeps_preserve_system_size() {
    let mut system = SequenceSystem::new(7);
    let mut protocol: MCProtocol<MetropolisCriterion, SequenceSystem, SingleAAMover> =
        MCProtocol::new(MetropolisCriterion::new(2.0));
    protocol.add_mover(SingleAAMover::new(20));
    protocol.make_sweeps(4, &mut system, &ZeroEnergy);
    assert_eq!(system.size(), 7);
}

#[test]
fn sweeps_with_no_movers_do_nothing() {
    let mut system = SequenceSystem::from_values(vec![1, 2]);
    let mut protocol: MCProtocol<AlwaysAccept, SequenceSystem, SingleAAMover> =
        MCProtocol::new(AlwaysAccept);
    protocol.make_sweeps(5, &mut system, &ZeroEnergy);
    assert_eq!(protocol.count_movers(), 0);
    assert_eq!(system.get(0), 1);
    assert_eq!(system.get(1), 2);
}
