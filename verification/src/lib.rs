//! Core of a remote code-execution service: per-job workspace lifecycle,
//! language-agnostic compile/run orchestration, resource limiting, output
//! capture and classification, and multi-test scoring. The surrounding
//! transport and filesystem/process runtime feed this library plain values
//! and perform the actions it plans.

pub mod code;
pub mod job;
pub mod language;
pub mod limits;
pub mod models;
pub mod numerals;
pub mod process;
pub mod testing;
pub mod workspace;
