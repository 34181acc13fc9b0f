//! Verified physics core for a planar chain of N pendulums.
//!
//! The crate derives the Lagrangian equations of motion M·α + C + G = 0 for a
//! chain of rigid rods, solves the linear system for the angular
//! accelerations, and advances the state with a fixed-step fourth-order
//! Runge-Kutta integrator. All arithmetic is exact fixed-point (see [`fx`]),
//! so every function has a complete functional contract.

pub mod fx;
pub mod trig;
pub mod math;
pub mod solver;
pub mod logic;
pub mod geom;
pub mod laws;
