//! Small, fully verified building blocks: a per-student grade tracker with
//! validated scores and a derived letter grade, plus a handful of number and
//! sequence utilities.
//!
//! Scores are fixed-point numbers counted in thousandths of a point, so every
//! comparison against a grade boundary is exact.

pub mod commands;
pub mod decimal;
pub mod numbers;
pub mod score;
pub mod sequences;
pub mod student;
