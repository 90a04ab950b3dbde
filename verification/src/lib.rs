//! Native execution of a compiled intermediate-representation program.
//!
//! Two coupled parts: a libfunc lowering framework that turns each concrete
//! catalog operation into target control flow appended at an insertion point,
//! and an execution engine that owns a loaded dynamic artifact, resolves entry
//! points by deterministic name mangling, establishes a gas budget, and
//! prepares ABI-correct invocations with optional host-call interception.

use vstd::prelude::*;

pub mod artifact;
pub mod executor;
pub mod gas;
pub mod ir;
pub mod libfuncs;
pub mod metadata;
pub mod module;
pub mod program;
pub mod starknet;
pub mod utils;
pub mod values;

verus! {

/// Typed errors of the execution engine's public entry points.
///
/// In-program faults (traps, explicit reverts) are never reported here: they
/// travel as data inside the returned result, so callers can distinguish "the
/// call machinery failed" from "the target program failed".
#[derive(Debug, Clone, Copy, PartialEq, Eq)]
pub enum Error {
    /// Neither an explicit budget nor gas metadata could establish an initial
    /// gas value; the native entry point is never invoked in this case.
    InsufficientGas,
    /// The loaded artifact exports no symbol for the requested function id:
    /// a registry/artifact inconsistency, never retried.
    MissingSymbol,
    /// The registry holds no function under the requested id.
    MissingFunction,
    /// A module's metadata store holds no gas-metadata entry to extract.
    MissingGasMetadata,
    /// A contract-style outcome was not a flat sequence of scalars.
    UnexpectedValue,
}

} // verus!
