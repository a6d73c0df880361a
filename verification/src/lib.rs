//! Propositional formulas over indexed atoms, evaluated against a truth
//! assignment held in a bit vector.

pub mod propositional;
