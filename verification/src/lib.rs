//! A generic Monte Carlo sampling engine.
//!
//! A simulated system is perturbed by pluggable movers, scored by a
//! pluggable energy model, and each proposed move is accepted or rejected
//! by a pluggable stochastic criterion.  An adaptive wrapper retunes each
//! mover's step size toward a target acceptance rate between batches of
//! sweeps.
//!
//! All physical quantities are carried as fixed-point integers so that the
//! engine's behaviour can be specified and proved exactly: energies are
//! `i64` values in a caller-chosen unit, step sizes are `u64` values in a
//! caller-chosen unit, and acceptance rates are exact ratios of counters,
//! with thresholds expressed in thousandths (per-mille).

pub mod adaptive;
pub mod color;
pub mod elements;
pub mod energy;
pub mod montecarlo;
pub mod sequence;
pub mod stats;
pub mod system;

pub use adaptive::AdaptiveMCProtocol;
pub use adaptive::StepBounds;
pub use adaptive::StepFactor;
pub use color::Color;
pub use elements::Container;
pub use elements::Rect;
pub use energy::Energy;
pub use energy::is_additive;
pub use montecarlo::AcceptanceCriterion;
pub use montecarlo::IndexRange;
pub use montecarlo::MCProtocol;
pub use montecarlo::Mover;
pub use montecarlo::MoversSet;
pub use montecarlo::MoversSetSampler;
pub use montecarlo::Sampler;
pub use sequence::SequenceSystem;
pub use sequence::SingleAAMover;
pub use stats::AcceptanceStatistics;
pub use system::System;
