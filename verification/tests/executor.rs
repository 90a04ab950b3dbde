use starknet_types_core::felt::Felt;

use sierra_native::artifact::NativeArtifact;
use sierra_native::executor::aot::AotNativeExecutor;
use sierra_native::gas::{GasCost, GasMetadata};
use sierra_native::metadata::{MetadataEntry, MetadataStorage};
use sierra_native::module::NativeModule;
use sierra_native::program::{FunctionId, FunctionSignature, ProgramRegistry};
use sierra_native::starknet::{DummySyscallHandler, StarknetSyscallHandler};
use sierra_native::utils::{entry_symbol_name, generate_function_name};
use sierra_native::values::{ContractExecutionResult, ExecutionResult, Value};
use sierra_native::Error;

fn fid(id: u64) -> FunctionId {
    FunctionId { id, debug_name: None }
}

fn sig(params: Vec<u64>, rets: Vec<u64>) -> FunctionSignature {
    FunctionSignature { param_types: params, ret_types: rets }
}

/// An executor exporting function id 42 ("fn_double") at address 0x1000 with
/// initial gas 100, and function id 5 with an unmetered entry at 0x2000.
fn demo_executor() -> AotNativeExecutor {
    let artifact = NativeArtifact::new(vec![
        (b"_mlir_ciface_f42".to_vec(), 0x1000),
        (b"_mlir_ciface_f5".to_vec(), 0x2000),
    ]);
    let registry = ProgramRegistry::new(vec![
        (42, sig(vec![1], vec![1])),
        (5, sig(vec![], vec![])),
        (9, sig(vec![], vec![])),
    ]);
    let gas = GasMetadata::new(vec![(42, GasCost::Metered(100)), (5, GasCost::Unmetered)]);
    AotNativeExecutor::new(artifact, registry, gas)
}

#[test]
fn mangles_plain_ids_in_decimal() {
    assert_eq!(generate_function_name(&fid(0)), b"f0".to_vec());
    assert_eq!(generate_function_name(&fid(42)), b"f42".to_vec());
    assert_eq!(generate_function_name(&fid(1230456)), b"f1230456".to_vec());
    assert_eq!(entry_symbol_name(&fid(42)), b"_mlir_ciface_f42".to_vec());
}

#[test]
fn mangles_debug_names_verbatim() {
    let id = FunctionId { id: 7, debug_name: Some(b"double".to_vec()) };
    assert_eq!(generate_function_name(&id), b"double".to_vec());
    assert_eq!(entry_symbol_name(&id), b"_mlir_ciface_double".to_vec());
}

#[test]
fn resolves_present_symbols_to_their_address() {
    let ex = demo_executor();
    assert_eq!(ex.find_function_ptr(&fid(42)), Ok(0x1000));
    assert_eq!(ex.find_function_ptr(&fid(5)), Ok(0x2000));
    // Resolution is repeatable: the same id resolves to the same address.
    assert_eq!(ex.find_function_ptr(&fid(42)), Ok(0x1000));
}

#[test]
fn missing_symbols_fail_deterministically() {
    let ex = demo_executor();
    assert_eq!(ex.find_function_ptr(&fid(9)), Err(Error::MissingSymbol));
    assert_eq!(ex.find_function_ptr(&fid(9)), Err(Error::MissingSymbol));
}

#[test]
fn explicit_gas_wins_over_metadata() {
    let ex = demo_executor();
    assert_eq!(ex.gas_metadata.get_initial_available_gas(&fid(42), Some(7)), Ok(7));
    let inv = ex.invoke_dynamic(&fid(42), vec![], Some(7)).unwrap();
    assert_eq!(inv.available_gas, 7);
}

#[test]
fn metadata_supplies_gas_when_no_explicit_budget() {
    let ex = demo_executor();
    assert_eq!(ex.gas_metadata.get_initial_available_gas(&fid(42), None), Ok(100));
    assert_eq!(ex.gas_metadata.get_initial_available_gas(&fid(5), None), Ok(0));
}

#[test]
fn unresolvable_gas_fails_before_any_native_step() {
    let ex = demo_executor();
    // Id 9 has no metadata entry: with no explicit budget the call fails with
    // InsufficientGas and no invocation is ever prepared, even though the
    // symbol lookup would also have failed later.
    assert_eq!(
        ex.gas_metadata.get_initial_available_gas(&fid(9), None),
        Err(Error::InsufficientGas)
    );
    let mut prepared: u32 = 0;
    match ex.invoke_dynamic(&fid(9), vec![], None) {
        Ok(_) => prepared += 1,
        Err(e) => assert_eq!(e, Error::InsufficientGas),
    }
    assert_eq!(prepared, 0);
}

#[test]
fn explicit_gas_does_not_mask_a_missing_symbol() {
    let ex = demo_executor();
    // Gas was explicit and sufficient; the symbol simply does not exist.
    assert_eq!(
        ex.invoke_dynamic(&fid(9), vec![], Some(10)).unwrap_err(),
        Error::MissingSymbol
    );
}

#[test]
fn invoke_dynamic_prepares_the_documented_example() {
    let ex = demo_executor();
    let inv = ex
        .invoke_dynamic(&fid(42), vec![Value::Felt252(Felt::from(21u64))], None)
        .unwrap();
    assert_eq!(inv.entry_addr, 0x1000);
    assert_eq!(inv.available_gas, 100);
    assert_eq!(inv.signature, sig(vec![1], vec![1]));
    assert_eq!(inv.args, vec![Value::Felt252(Felt::from(21u64))]);

    // The owner runs the native code; a successful outcome comes back as data.
    let outcome = ExecutionResult {
        remaining_gas: 58,
        return_values: vec![Value::Felt252(Felt::from(42u64))],
        failure: None,
    };
    let reshaped = ContractExecutionResult::from_execution_result(outcome).unwrap();
    assert!(!reshaped.failure_flag);
    assert_eq!(reshaped.remaining_gas, 58);
    assert_eq!(reshaped.return_values, vec![Felt::from(42u64)]);
}

#[test]
fn handler_is_passed_through_unchanged() {
    let ex = demo_executor();
    let (inv, handler) = ex
        .invoke_dynamic_with_syscall_handler(&fid(42), vec![], Some(1), DummySyscallHandler)
        .unwrap();
    assert_eq!(inv.available_gas, 1);
    assert_eq!(handler, DummySyscallHandler);
}

#[test]
fn contract_invocation_matches_wrapped_dynamic_invocation() {
    let ex = demo_executor();
    let scalars = vec![Felt::from(1u64), Felt::from(2u64), Felt::from(3u64)];

    let (contract_inv, _) = ex
        .invoke_contract_dynamic(&fid(42), &scalars, Some(50), DummySyscallHandler)
        .unwrap();

    let composite = Value::Struct {
        fields: vec![Value::Array(vec![
            Value::Felt252(Felt::from(1u64)),
            Value::Felt252(Felt::from(2u64)),
            Value::Felt252(Felt::from(3u64)),
        ])],
        debug_name: None,
    };
    let (dynamic_inv, _) = ex
        .invoke_dynamic_with_syscall_handler(
            &fid(42),
            vec![composite],
            Some(50),
            DummySyscallHandler,
        )
        .unwrap();

    // Observationally equivalent: same frame, same single wrapped argument.
    assert_eq!(contract_inv, dynamic_inv);
}

#[test]
fn identical_invocations_prepare_identical_results() {
    let ex = demo_executor();
    let args = || vec![Value::Felt252(Felt::from(21u64))];
    let first = ex.invoke_dynamic(&fid(42), args(), Some(9));
    let second = ex.invoke_dynamic(&fid(42), args(), Some(9));
    assert_eq!(first, second);
}

#[test]
fn invocation_outlives_a_discard_that_happens_after_the_call_returns() {
    let ex = demo_executor();
    let inv = ex.invoke_dynamic(&fid(42), vec![], None).unwrap();
    drop(ex);
    // The prepared invocation completed before the executor was discarded,
    // so its data stays intact.
    assert_eq!(inv.entry_addr, 0x1000);
    assert_eq!(inv.available_gas, 100);
}

#[test]
fn in_program_failures_are_data_not_errors() {
    let payload = vec![Felt::from(11u64), Felt::from(22u64)];
    let outcome = ExecutionResult {
        remaining_gas: 3,
        return_values: vec![],
        failure: Some(payload.clone()),
    };
    let reshaped = ContractExecutionResult::from_execution_result(outcome).unwrap();
    assert!(reshaped.failure_flag);
    assert_eq!(reshaped.remaining_gas, 3);
    assert_eq!(reshaped.return_values, payload);
}

#[test]
fn non_scalar_contract_returns_are_rejected() {
    let outcome = ExecutionResult {
        remaining_gas: 0,
        return_values: vec![Value::Array(vec![])],
        failure: None,
    };
    assert_eq!(
        ContractExecutionResult::from_execution_result(outcome),
        Err(Error::UnexpectedValue)
    );
}

#[test]
fn building_from_a_module_extracts_the_gas_entry() {
    let artifact = NativeArtifact::new(vec![(b"_mlir_ciface_f1".to_vec(), 0x500)]);
    let registry = ProgramRegistry::new(vec![(1, sig(vec![], vec![]))]);
    let mut metadata = MetadataStorage::new();
    assert!(metadata.insert(MetadataEntry::Gas(GasMetadata::new(vec![(
        1,
        GasCost::Metered(10)
    )]))));
    let module = NativeModule::new(b"module ir".to_vec(), registry, metadata);
    let ex = AotNativeExecutor::from_native_module(module, artifact).unwrap();
    assert_eq!(ex.gas_metadata.get_initial_available_gas(&fid(1), None), Ok(10));
}

#[test]
fn a_module_without_gas_metadata_is_fatal_to_construction() {
    let artifact = NativeArtifact::new(vec![]);
    let registry = ProgramRegistry::new(vec![]);
    let module = NativeModule::new(vec![], registry, MetadataStorage::new());
    assert_eq!(
        AotNativeExecutor::from_native_module(module, artifact).unwrap_err(),
        Error::MissingGasMetadata
    );
}

#[test]
fn the_store_is_type_indexed() {
    let mut metadata = MetadataStorage::new();
    assert!(metadata.insert(MetadataEntry::Gas(GasMetadata::new(vec![]))));
    // A second entry of the same kind is refused.
    assert!(!metadata.insert(MetadataEntry::Gas(GasMetadata::new(vec![(1, GasCost::Unmetered)]))));
    assert!(metadata.insert(MetadataEntry::RuntimeBindings(vec![3])));
    assert!(metadata.remove_gas().is_some());
    assert!(metadata.remove_gas().is_none());
}

#[test]
fn the_default_handler_rejects_every_host_call() {
    let mut handler = DummySyscallHandler;
    assert!(handler.storage_read(Felt::from(1u64)).is_err());
    assert!(handler.storage_write(Felt::from(1u64), Felt::from(2u64)).is_err());
    assert!(handler.emit_event(vec![], vec![]).is_err());
    assert!(handler.call_contract(Felt::from(1u64), vec![]).is_err());
}
