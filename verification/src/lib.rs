//! Propagation of two-body gravitational trajectories.
//!
//! The crate is built around a small tower of abstractions: a scalar
//! capability trait ([`scalar::Num`]), fixed-length state vectors
//! ([`vector::Vector`]), systems of equations ([`soe::Soe`]), a family of
//! one-step and multi-step integrators ([`methods`]), the two-body problem
//! setup ([`twobody`]) and the analytic Kepler propagator ([`kepler`]).
//!
//! Every state vector reserves its first slot for the current time; the
//! remaining slots carry positions and velocities.

pub mod kepler;
pub mod methods;
pub mod scalar;
pub mod soe;
pub mod twobody;
pub mod vector;
