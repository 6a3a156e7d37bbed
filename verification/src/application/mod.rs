//! Application layer: the hardening steps and the orchestration of a run.
pub mod flows;
pub mod orchestrator;
pub mod steps;
