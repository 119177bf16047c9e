//! Configuration resolution and a backend-agnostic object storage facade.
pub mod config;
pub mod storage;
