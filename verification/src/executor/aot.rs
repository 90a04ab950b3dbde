//! The ahead-of-time native execution engine: exclusive owner of one loaded
//! artifact, the program registry and the gas metadata, providing repeatable
//! invocation of any function by logical id.
//!
//! Running the compiled code itself crosses the native boundary and is the
//! owner's step: the engine resolves the budget, the entry pointer and the
//! signature, pins the argument values, and hands back one fully prepared
//! invocation; the raw outcome comes back as an `ExecutionResult` and is
//! reshaped by `ContractExecutionResult::from_execution_result`. Every
//! address below borrows the artifact's lifetime: it is valid exactly as long
//! as the executor that produced it.

use vstd::prelude::*;

use starknet_types_core::felt::Felt;

use crate::artifact::NativeArtifact;
use crate::gas::GasMetadata;
use crate::module::NativeModule;
use crate::program::{FunctionId, FunctionSignature, ProgramRegistry};
use crate::starknet::StarknetSyscallHandler;
use crate::utils::{copy_ids, entry_symbol, entry_symbol_name};
use crate::values::{is_calldata_for, wrap_calldata, Value};
use crate::Error;

verus! {

/// One fully prepared invocation: everything the invocation core needs to
/// marshal the arguments, enter the compiled function, and meter it.
#[derive(Debug, PartialEq)]
pub struct Invocation {
    /// Address of the resolved entry point inside the loaded artifact;
    /// never null, and never valid beyond the owning executor's lifetime.
    pub entry_addr: usize,
    /// The function's registered call signature.
    pub signature: FunctionSignature,
    /// The argument values, in call order.
    pub args: Vec<Value>,
    /// The initial gas budget established before any native code runs.
    pub available_gas: u128,
}

/// The ahead-of-time executor: owns the loaded artifact exclusively, and the
/// registry and gas metadata by value. Unloading the artifact invalidates
/// every pointer obtained from it, so derived addresses must not outlive the
/// executor.
#[derive(Debug)]
pub struct AotNativeExecutor {
    pub artifact: NativeArtifact,
    pub registry: ProgramRegistry,
    pub gas_metadata: GasMetadata,
}

impl AotNativeExecutor {
    /// A usable executor exports only non-null entry addresses.
    pub open spec fn wf(self) -> bool {
        self.artifact.wf()
    }

    /// Which typed error, if any, the invocation path yields for this id and
    /// budget. Gas resolution comes strictly first — on its failure the
    /// native entry point is never even resolved — then entry-pointer
    /// resolution, then the signature lookup.
    pub open spec fn invoke_error(self, id: FunctionId, gas: Option<u128>) -> Option<Error> {
        if self.gas_metadata.initial_gas_spec(id.id, gas) is Err {
            Some(Error::InsufficientGas)
        } else if self.artifact.resolve(entry_symbol(id)) is None {
            Some(Error::MissingSymbol)
        } else if self.registry.lookup(id.id) is None {
            Some(Error::MissingFunction)
        } else {
            None
        }
    }

    /// The prepared invocation's frame (everything but the arguments) is the
    /// unique one for this executor, function id and explicit budget.
    pub open spec fn invocation_frame_matches(
        self,
        inv: Invocation,
        id: FunctionId,
        gas: Option<u128>,
    ) -> bool {
        &&& Ok::<u128, Error>(inv.available_gas) == self.gas_metadata.initial_gas_spec(id.id, gas)
        &&& Some(inv.entry_addr) == self.artifact.resolve(entry_symbol(id))
        &&& inv.entry_addr != 0
        &&& match self.registry.lookup(id.id) {
            Some(sig) => inv.signature.param_types@ == sig.param_types@
                && inv.signature.ret_types@ == sig.ret_types@,
            None => false,
        }
    }

    /// The prepared invocation carries exactly `args`, under the unique frame.
    pub open spec fn invocation_matches(
        self,
        inv: Invocation,
        id: FunctionId,
        args: Seq<Value>,
        gas: Option<u128>,
    ) -> bool {
        &&& self.invocation_frame_matches(inv, id, gas)
        &&& inv.args@ == args
    }

    /// Caller supplies an already-loaded artifact, registry and gas metadata.
    pub fn new(
        artifact: NativeArtifact,
        registry: ProgramRegistry,
        gas_metadata: GasMetadata,
    ) -> (r: Self)
        ensures
            r.artifact == artifact,
            r.registry == registry,
            r.gas_metadata == gas_metadata,
    {
        AotNativeExecutor { artifact, registry, gas_metadata }
    }

    /// Converts a `NativeModule` into an executor, given the artifact its
    /// module IR was compiled, linked and loaded into. The bundle is consumed
    /// exactly once: its registry moves into the executor, the gas-metadata
    /// entry is extracted (removed) from its metadata store, and the rest of
    /// the store is discarded. A store with no gas-metadata entry is fatal to
    /// construction: no partial executor is produced.
    pub fn from_native_module(module: NativeModule, artifact: NativeArtifact) -> (r: Result<
        Self,
        Error,
    >)
        requires
            module.metadata.wf(),
        ensures
            match r {
                Ok(ex) => {
                    &&& ex.artifact == artifact
                    &&& ex.registry == module.registry
                    &&& exists|i: int|
                        0 <= i < module.metadata.entries_seq().len()
                            && module.metadata.entries_seq()[i]
                            == crate::metadata::MetadataEntry::Gas(ex.gas_metadata)
                },
                Err(e) => e == Error::MissingGasMetadata && !module.metadata.has_tag(0),
            },
    {
        let NativeModule { module_ir: _, registry, metadata } = module;
        let mut metadata = metadata;
        match metadata.remove_gas() {
            Some(gas_metadata) => Ok(AotNativeExecutor { artifact, registry, gas_metadata }),
            None => Err(Error::MissingGasMetadata),
        }
    }

    /// Resolves the entry address of `function_id`: the symbol named by the
    /// fixed prefix concatenated with the canonical mangled form of the id.
    /// A missing symbol signals a registry/artifact inconsistency and is
    /// reported as `MissingSymbol`, never retried.
    pub fn find_function_ptr(&self, function_id: &FunctionId) -> (r: Result<usize, Error>)
        requires
            self.wf(),
        ensures
            match r {
                Ok(addr) => self.artifact.resolve(entry_symbol(*function_id)) == Some(addr) && addr
                    != 0,
                Err(e) => e == Error::MissingSymbol && self.artifact.resolve(
                    entry_symbol(*function_id),
                ) is None,
            },
    {
        let name = entry_symbol_name(function_id);
        match self.artifact.resolve_symbol(&name) {
            Some(addr) => Ok(addr),
            None => Err(Error::MissingSymbol),
        }
    }

    /// The function's registered signature, or the fatal catalog miss.
    fn extract_signature(&self, function_id: &FunctionId) -> (r: Option<&FunctionSignature>)
        ensures
            match r {
                Some(sig) => self.registry.lookup(function_id.id) == Some(*sig),
                None => self.registry.lookup(function_id.id) is None,
            },
    {
        self.registry.get_function(function_id.id)
    }

    /// Prepares one invocation of `function_id` on `args`, with no host-call
    /// handler: any host call the function attempts meets the rejecting
    /// default.
    ///
    /// The initial budget is resolved strictly first: on `InsufficientGas`
    /// the entry point is never resolved, so no native code can run.
    pub fn invoke_dynamic(
        &self,
        function_id: &FunctionId,
        args: Vec<Value>,
        gas: Option<u128>,
    ) -> (r: Result<Invocation, Error>)
        requires
            self.wf(),
        ensures
            match r {
                Ok(inv) => self.invoke_error(*function_id, gas) is None
                    && self.invocation_matches(inv, *function_id, args@, gas),
                Err(e) => self.invoke_error(*function_id, gas) == Some(e),
            },
    {
        let available_gas = match self.gas_metadata.get_initial_available_gas(function_id, gas) {
            Ok(g) => g,
            Err(e) => {
                return Err(e);
            },
        };
        let entry_addr = match self.find_function_ptr(function_id) {
            Ok(addr) => addr,
            Err(e) => {
                return Err(e);
            },
        };
        let signature = match self.extract_signature(function_id) {
            Some(sig) => FunctionSignature {
                param_types: copy_ids(&sig.param_types),
                ret_types: copy_ids(&sig.ret_types),
            },
            None => {
                return Err(Error::MissingFunction);
            },
        };
        Ok(Invocation { entry_addr, signature, args, available_gas })
    }

    /// Prepares one invocation whose host calls are routed to
    /// `syscall_handler`; the handler is passed through to the invocation
    /// core unchanged.
    pub fn invoke_dynamic_with_syscall_handler<H: StarknetSyscallHandler>(
        &self,
        function_id: &FunctionId,
        args: Vec<Value>,
        gas: Option<u128>,
        syscall_handler: H,
    ) -> (r: Result<(Invocation, H), Error>)
        requires
            self.wf(),
        ensures
            match r {
                Ok(pair) => self.invoke_error(*function_id, gas) is None
                    && self.invocation_matches(pair.0, *function_id, args@, gas) && pair.1
                    == syscall_handler,
                Err(e) => self.invoke_error(*function_id, gas) == Some(e),
            },
    {
        match self.invoke_dynamic(function_id, args, gas) {
            Ok(inv) => Ok((inv, syscall_handler)),
            Err(e) => Err(e),
        }
    }

    /// Prepares one contract-style invocation: wraps the flat scalar sequence
    /// `args` into the single composite calldata argument the contract ABI
    /// expects, then delegates to the same invocation core. The wrapping is
    /// pure and order-preserving.
    pub fn invoke_contract_dynamic<H: StarknetSyscallHandler>(
        &self,
        function_id: &FunctionId,
        args: &Vec<Felt>,
        gas: Option<u128>,
        syscall_handler: H,
    ) -> (r: Result<(Invocation, H), Error>)
        requires
            self.wf(),
        ensures
            match r {
                Ok(pair) => {
                    &&& self.invoke_error(*function_id, gas) is None
                    &&& self.invocation_frame_matches(pair.0, *function_id, gas)
                    &&& pair.0.args@.len() == 1
                    &&& is_calldata_for(pair.0.args@[0], args@)
                    &&& pair.1 == syscall_handler
                },
                Err(e) => self.invoke_error(*function_id, gas) == Some(e),
            },
    {
        let calldata = wrap_calldata(args);
        let mut call_args: Vec<Value> = Vec::new();
        call_args.push(calldata);
        self.invoke_dynamic_with_syscall_handler(function_id, call_args, gas, syscall_handler)
    }
}

/// Law: the prepared call path is deterministic. Two prepared invocations of
/// the same function id on the same executor, with identical arguments and
/// identical explicit gas, agree on every observable of the call: entry
/// address, budget, signature and argument sequence.
pub proof fn lemma_invoke_deterministic(
    ex: AotNativeExecutor,
    inv1: Invocation,
    inv2: Invocation,
    id: FunctionId,
    args: Seq<Value>,
    gas: Option<u128>,
)
    requires
        ex.invocation_matches(inv1, id, args, gas),
        ex.invocation_matches(inv2, id, args, gas),
    ensures
        inv1.entry_addr == inv2.entry_addr,
        inv1.available_gas == inv2.available_gas,
        inv1.signature.param_types@ == inv2.signature.param_types@,
        inv1.signature.ret_types@ == inv2.signature.ret_types@,
        inv1.args@ == inv2.args@,
{
}

/// Law: the calldata wrapping is pure and order-preserving. A contract-style
/// invocation on the flat scalars `felts` is observationally equivalent to a
/// dynamic invocation whose single composite argument wraps exactly that
/// ordered sequence: both share one frame, and both carry one calldata value
/// for the same scalars in the same order.
pub proof fn lemma_contract_wrapping_equivalent(
    ex: AotNativeExecutor,
    inv_contract: Invocation,
    inv_dynamic: Invocation,
    id: FunctionId,
    felts: Seq<Felt>,
    composite: Value,
    gas: Option<u128>,
)
    requires
        is_calldata_for(composite, felts),
        ex.invocation_matches(inv_dynamic, id, seq![composite], gas),
        ex.invocation_frame_matches(inv_contract, id, gas),
        inv_contract.args@.len() == 1,
        is_calldata_for(inv_contract.args@[0], felts),
    ensures
        inv_contract.entry_addr == inv_dynamic.entry_addr,
        inv_contract.available_gas == inv_dynamic.available_gas,
        inv_contract.signature.param_types@ == inv_dynamic.signature.param_types@,
        inv_contract.signature.ret_types@ == inv_dynamic.signature.ret_types@,
        inv_dynamic.args@.len() == 1,
        is_calldata_for(inv_dynamic.args@[0], felts),
{
    assert(inv_dynamic.args@[0] == composite);
}

} // verus!
