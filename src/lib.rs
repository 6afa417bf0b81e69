//! A small constraint-based type-inference engine.
//!
//! Variables are declared with type expressions, constraints relate
//! variables and literal values, and a query computes the most specific
//! type a variable can have once every constraint reachable from it has
//! been folded in.
pub mod ty;
pub mod program;
pub mod render;
pub mod laws;
