//! The intermediate bundle produced by one compilation pass, consumed exactly
//! once to build an executor.

use vstd::prelude::*;

use crate::metadata::MetadataStorage;
use crate::program::ProgramRegistry;

verus! {

/// Module IR plus registry plus the compilation's metadata store.
///
/// The owner hands the module IR to the object-emission pipeline, loads the
/// linked artifact, and extracts the gas-metadata entry from the store; the
/// rest of the store is discarded with the bundle.
#[derive(Debug)]
pub struct NativeModule {
    /// The finished module IR, opaque to the engine.
    pub module_ir: Vec<u8>,
    pub registry: ProgramRegistry,
    pub metadata: MetadataStorage,
}

impl NativeModule {
    pub fn new(module_ir: Vec<u8>, registry: ProgramRegistry, metadata: MetadataStorage) -> (r:
        Self)
        ensures
            r.module_ir == module_ir,
            r.registry == registry,
            r.metadata == metadata,
    {
        NativeModule { module_ir, registry, metadata }
    }
}

} // verus!
