//! An n-link pendulum simulator.
//!
//! A chain of bobs hangs from a fixed origin, each bob attached to the
//! previous one by a rigid rod.  The chain state lives in generalized
//! coordinates (one angle and one angular velocity per bob); each tick
//! solves the equations of motion for the angular accelerations and
//! advances the state with either a semi-implicit Euler step or a
//! classical fourth-order Runge-Kutta step.
//!
//! Every scalar of the simulation is carried as the bit pattern of an
//! IEEE-754 binary64 value (a plain `u64`).  The library never computes
//! on those bits itself: all real arithmetic goes through the
//! [`scalar::RealOps`] trait, which the host implements on native
//! floating point.  What the library owns — and what is verified — is
//! everything around that arithmetic: the data model, the per-tick
//! decisions (pause, empty chain, stability cutoff, the abort on a
//! non-finite acceleration), the shape of the mass matrix and forcing
//! vector, the bounded trail history, and the bookkeeping of every
//! mutator.

pub mod bob;
pub mod dynamics;
pub mod integrator;
pub mod rod;
pub mod scalar;
pub mod universe;
pub mod vec2;
