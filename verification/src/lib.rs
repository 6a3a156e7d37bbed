//! Server hardening: audit model, step planning, rollback and configuration logic.
pub mod application;
pub mod domain;
pub mod i18n;
pub mod infrastructure;
pub mod presentation;
pub mod table_laws;
pub mod text;
