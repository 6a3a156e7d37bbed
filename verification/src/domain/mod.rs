//! Domain layer: audit model, step kinds, errors and undo actions.
pub mod audit;
pub mod errors;
pub mod steps;
pub mod undo;
