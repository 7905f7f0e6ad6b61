//! The locality contract of an energy model: for systems differing at one
//! position, the global energy change equals the reported local delta.

use simulations_base::{Energy, SequenceSystem, System};

/// A pairwise coupling energy over unordered position pairs: residue `a`
/// at position `i` and residue `b` at position `j` contribute
/// `c[i * k + a][j * k + b]` once per pair.
struct PairEnergy {
    k: usize,
    c: Vec<Vec<i64>>,
}

impl PairEnergy {
    fn coupling(&self, i: usize, a: u8, j: usize, b: u8) -> i64 {
        // symmetric lookup so the pair's contribution does not depend on
        // the order of its ends
        if i <= j {
            self.c[i * self.k + a as usize][j * self.k + b as usize]
        } else {
            self.c[j * self.k + b as usize][i * self.k + a as usize]
        }
    }

    fn local(&self, system: &SequenceSystem, pos: usize, residue: u8) -> i64 {
        let mut e = 0;
        for j in 0..system.size() {
            if j != pos {
                e += self.coupling(pos, residue, j, system.get(j));
            }
        }
        e
    }
}

impl Energy<SequenceSystem> for PairEnergy {
    fn energy(&self, system: &SequenceSystem) -> i64 {
        let mut e = 0;
        for i in 0..system.size() {
            for j in (i + 1)..system.size() {
                e += self.coupling(i, system.get(i), j, system.get(j));
            }
        }
        e
    }

    fn energy_by_pos(&self, system: &SequenceSystem, pos: usize) -> i64 {
        self.local(system, pos, system.get(pos))
    }

    fn delta_energy_by_pos(
        &self,
        old_system: &SequenceSystem,
        new_system: &SequenceSystem,
        pos: usize,
    ) -> (i64, i64) {
        (
            self.local(old_system, pos, old_system.get(pos)),
            self.local(old_system, pos, new_system.get(pos)),
        )
    }
}

fn sample_energy(n: usize, k: usize) -> PairEnergy {
    let dim = n * k;
    let mut c = vec![vec![0i64; dim]; dim];
    let mut seed: i64 = 17;
    for row in c.iter_mut() {
        for v in row.iter_mut() {
            seed = (seed * 31 + 7) % 101;
            *v = seed - 50;
        }
    }
    PairEnergy { k, c }
}

#[test]
fn local_delta_matches_global_delta_at_one_changed_position() {
    let k = 4;
    let en = sample_energy(5, k);
    let a = SequenceSystem::from_values(vec![0, 3, 1, 2, 3]);
    let b = SequenceSystem::from_values(vec![0, 3, 2, 2, 3]);
    let pos = 2;

    let (before, after) = en.delta_energy_by_pos(&a, &b, pos);
    let global_delta = en.energy(&b) - en.energy(&a);
    let local_delta = after - before;
    assert_eq!(global_delta, local_delta);
    // the energies are exact integers, so the double-precision tolerance
    // of the runtime self-check holds with room to spare
    assert!(((global_delta - local_delta) as f64).abs() <= 1e-6);
}

#[test]
fn energy_by_pos_agrees_with_the_delta_query() {
    let k = 3;
    let en = sample_energy(4, k);
    let a = SequenceSystem::from_values(vec![2, 0, 1, 2]);
    let b = SequenceSystem::from_values(vec![2, 0, 0, 2]);
    let (before, after) = en.delta_energy_by_pos(&a, &b, 2);
    assert_eq!(before, en.energy_by_pos(&a, 2));
    assert_eq!(after, en.energy_by_pos(&b, 2));
}
