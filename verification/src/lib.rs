//! Decision core of a tick-driven neuro-evolution simulation.
//!
//! The crate keeps the parts of such a simulation that are decided over
//! integers: when a step or a generation change is due, which agent is the
//! elite, who inherits from it, how fitness is counted, and which shapes a
//! feed-forward layout has. Real-valued work (inference, geometry, motion)
//! belongs to the caller, which hands over integer readings whose order is
//! the order of the quantities they stand for.

pub mod arena;
pub mod control;
pub mod evolution;
pub mod reading;
pub mod sensor;
pub mod timer;
pub mod topology;
pub mod world;
