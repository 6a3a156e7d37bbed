//! Infrastructure logic: rollback bookkeeping, system probes' interpretation, logging text.
pub mod logger;
pub mod rollback;
pub mod system;
