//! Fixed-step integration of two-state systems of ordinary differential
//! equations, with machine-checked contracts.
//!
//! Two integrators are offered: the classical fourth-order Runge-Kutta
//! method ([`rk4`]) and a four-step Adams-Bashforth / Adams-Moulton
//! predictor-corrector that is started by Runge-Kutta steps ([`abam4`]).
//! [`convergence`] runs either of them over a family of step sizes and
//! measures the coarser results against the finest one. [`ecosystem`] and
//! [`semiconductor`] hold two models with their studies, [`extent`] finds
//! the range that a chart of a run has to cover, and [`laws`] states what
//! holds of every run.
//!
//! # Numbers
//!
//! The integrators are generic over the number type, [`scalar::Scalar`], and
//! over the right-hand side of the system, [`rate::RateFunction`]. The
//! verifier knows nothing of what an implementation of either returns, so
//! the contracts quantify over what they may be: over every
//! [`scalar::Arithmetic`] that the number type implements, a table with one
//! mathematical function per operation, and over every mathematical function
//! that the rate function computes.
//!
//! A contract then fixes an output in two layers. Lengths, the initial
//! sample and the error that is returned hold as they stand. The values
//! hold in every such arithmetic: each state and each time is given as an
//! expression over its functions, in the order in which the operations are
//! carried out. With IEEE 754 doubles behind the scalar this is the sequence
//! of rounded operations that produces the result, bit for bit.
//!
//! # Errors
//!
//! A request is checked when a [`config::IntegrationSpec`] is made, before
//! anything is integrated. Overflow and undefined values that arise during
//! a run are not detected: they run through the remaining steps.
pub mod abam4;
pub mod config;
pub mod convergence;
pub mod ecosystem;
pub mod extent;
pub mod integrator;
pub mod laws;
pub mod rate;
pub mod rk4;
pub mod scalar;
pub mod semiconductor;
pub mod trajectory;
