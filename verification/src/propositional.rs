//! Propositional logic: atoms, assignments, formulas and their evaluation.

pub mod atom;
pub mod lemmas;
pub mod syntax;
pub mod valuation;
