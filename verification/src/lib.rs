//! Core data model and discrete decision logic of a six-degree-of-freedom
//! fixed-wing flight simulator.
//!
//! The simulator advances rigid-body equations of motion with a fixed-step
//! Runge-Kutta solver, drives a bank of surface actuators, and finds steady
//! flight conditions with a Nelder-Mead trim solver.  All of that arithmetic
//! runs on IEEE-754 doubles, which the verifier does not reason about, so the
//! numerical kernels live outside this crate.  What is verified here is
//! everything discrete that the simulator is built on: the shared record
//! layouts (state, control, auxiliary outputs, airframe constants), the
//! plugin lifecycle and its error taxonomy, the Nelder-Mead step selection
//! and termination rules, and the trim solver's target and weight tables.

pub mod control;
pub mod core_io;
pub mod error;
pub mod flight;
pub mod model_io;
pub mod nelder_mead;
pub mod other;
pub mod plugin;
pub mod state;
pub mod state_extend;
pub mod trim;
