//! Incremental verifiable computation driver for a Fibonacci step circuit.
//!
//! The crate holds the logic that a folding engine consumes: a state
//! transition given in two forms (a direct evaluator and a constraint-level
//! form), together with the run state machine that advances the transition
//! one step at a time. The cryptographic engine itself (accumulator folding,
//! proof compression and verification) is an outside collaborator driven by
//! the surrounding program.

pub mod circuit;
pub mod error;
pub mod field;
pub mod run;
