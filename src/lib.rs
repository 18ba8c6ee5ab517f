//! Combat resolution between two tactical units: unit state and its lazy
//! liveness reconciliation, randomized damage rolls, the attack / counter
//! exchange and a non-mutating preview of its possible results.

pub mod combat;
pub mod unit;
