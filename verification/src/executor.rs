//! Execution engines over a compiled artifact.

pub mod aot;
