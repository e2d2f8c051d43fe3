//! A coverage-guided, feedback-driven fuzzing engine.
//!
//! The engine produces byte-string inputs, runs a harness on each of them,
//! keeps the inputs that reach new coverage and records the inputs that make
//! the harness fail.

pub mod config;
pub mod corpus;
pub mod crashes;
pub mod error;
pub mod executor;
pub mod feedback;
pub mod fuzzer;
pub mod generator;
pub mod laws;
pub mod mutator;
pub mod naming;
pub mod observer;
pub mod outcome;
pub mod random;
pub mod target;
