//! Orchestrators of guest modules.
pub mod native;
