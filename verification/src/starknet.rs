//! Pluggable host-call interception: one method per supported host operation,
//! implemented by the embedding platform, plus the rejecting default used
//! when a caller supplies none.

use vstd::prelude::*;

use starknet_types_core::felt::Felt;

verus! {

/// Outcome of one host call: a value, or the fault payload the platform
/// reports to the calling program.
pub type SyscallResult<T> = Result<T, Vec<Felt>>;

/// A host-call handler: compiled code routes every host operation it performs
/// to exactly one of these methods. The supported operation set is defined by
/// the target platform; implementations are supplied by the embedder.
pub trait StarknetSyscallHandler {
    /// Reads one storage slot.
    fn storage_read(&mut self, address: Felt) -> SyscallResult<Felt>;

    /// Writes one storage slot.
    fn storage_write(&mut self, address: Felt, value: Felt) -> SyscallResult<()>;

    /// Emits one event with the given keys and data.
    fn emit_event(&mut self, keys: Vec<Felt>, data: Vec<Felt>) -> SyscallResult<()>;

    /// Performs a nested call into another contract.
    fn call_contract(&mut self, address: Felt, calldata: Vec<Felt>) -> SyscallResult<Vec<Felt>>;
}

/// The rejecting default handler: every attempted host call fails loudly with
/// an empty fault payload, so unguarded host calls never silently succeed.
#[derive(Debug, Clone, Copy, PartialEq, Eq)]
pub struct DummySyscallHandler;

impl StarknetSyscallHandler for DummySyscallHandler {
    fn storage_read(&mut self, _address: Felt) -> (r: SyscallResult<Felt>)
        ensures
            r is Err,
    {
        Err(Vec::new())
    }

    fn storage_write(&mut self, _address: Felt, _value: Felt) -> (r: SyscallResult<()>)
        ensures
            r is Err,
    {
        Err(Vec::new())
    }

    fn emit_event(&mut self, _keys: Vec<Felt>, _data: Vec<Felt>) -> (r: SyscallResult<()>)
        ensures
            r is Err,
    {
        Err(Vec::new())
    }

    fn call_contract(&mut self, _address: Felt, _calldata: Vec<Felt>) -> (r: SyscallResult<
        Vec<Felt>,
    >)
        ensures
            r is Err,
    {
        Err(Vec::new())
    }
}

} // verus!
