//! Rigid-body dynamics for articulated joint trees.
//!
//! The library models a vehicle (or any tree of single-degree-of-freedom
//! joints) with 6D spatial-vector algebra, computes forward dynamics with the
//! articulated-body three-pass recursion, injects per-joint forces
//! (suspension, tire contact, steering, drive, brake), and advances the
//! generalized state with a fourth-order Runge-Kutta integrator.
//!
//! All scalars are saturating fixed-point numbers ([`fx::Fx`]) so that every
//! arithmetic step has an exact, machine-checked meaning.

pub mod car;
pub mod fx;
pub mod linalg;
pub mod integrator;
pub mod joint;
pub mod mesh;
pub mod model;
pub mod physics;
pub mod serialize;
pub mod state;
pub mod structure;
pub mod sva;
