use sierra_native::gas::GasMetadata;
use sierra_native::ir::{Block, LibfuncHelper, Location, Operation};
use sierra_native::libfuncs::{
    build_libfunc, lower_function, ConcreteLibfunc, SignatureOnlyConcreteLibfunc,
};
use sierra_native::libfuncs::unconditional_jump;
use sierra_native::metadata::{MetadataEntry, MetadataStorage};
use sierra_native::program::{FunctionSignature, ProgramRegistry};
use sierra_native::values::{wrap_calldata, Value};
use starknet_types_core::felt::Felt;

fn loc() -> Location {
    Location { line: 1, column: 1 }
}

fn jump_info() -> SignatureOnlyConcreteLibfunc {
    SignatureOnlyConcreteLibfunc {
        signature: FunctionSignature { param_types: vec![], ret_types: vec![] },
    }
}

#[test]
fn jump_appends_exactly_one_branch_with_no_operands() {
    let registry = ProgramRegistry::new(vec![]);
    let mut entry = Block::new();
    let helper = LibfuncHelper { successors: vec![7] };
    let mut metadata = MetadataStorage::new();

    let r = unconditional_jump::build(&registry, &mut entry, loc(), &helper, &mut metadata, &jump_info());
    assert!(r.is_ok());
    assert_eq!(entry.ops, vec![Operation::Branch { target: 7, operands: vec![] }]);
}

#[test]
fn jump_lowering_ignores_metadata_contents() {
    let registry = ProgramRegistry::new(vec![]);
    let helper = LibfuncHelper { successors: vec![3] };

    let mut empty_store = MetadataStorage::new();
    let mut full_store = MetadataStorage::new();
    assert!(full_store.insert(MetadataEntry::Gas(GasMetadata::new(vec![]))));
    assert!(full_store.insert(MetadataEntry::RuntimeBindings(vec![1, 2])));

    let mut with_empty = Block::new();
    let mut with_full = Block::new();
    unconditional_jump::build(&registry, &mut with_empty, loc(), &helper, &mut empty_store, &jump_info())
        .unwrap();
    unconditional_jump::build(&registry, &mut with_full, loc(), &helper, &mut full_store, &jump_info())
        .unwrap();
    assert_eq!(with_empty, with_full);
    assert_eq!(with_empty.ops.len(), 1);
}

#[test]
fn jump_keeps_what_the_block_already_holds() {
    let registry = ProgramRegistry::new(vec![]);
    let mut entry = Block::new();
    entry.append_operation(Operation::Const { result: 1, value: 9 });
    let helper = LibfuncHelper { successors: vec![0] };
    let mut metadata = MetadataStorage::new();

    unconditional_jump::build(&registry, &mut entry, loc(), &helper, &mut metadata, &jump_info())
        .unwrap();
    assert_eq!(
        entry.ops,
        vec![
            Operation::Const { result: 1, value: 9 },
            Operation::Branch { target: 0, operands: vec![] },
        ]
    );
}

#[test]
fn dispatch_routes_the_jump_to_its_procedure() {
    let registry = ProgramRegistry::new(vec![]);
    let mut entry = Block::new();
    let helper = LibfuncHelper { successors: vec![11] };
    let mut metadata = MetadataStorage::new();
    let libfunc = ConcreteLibfunc::UnconditionalJump(jump_info());

    let r = build_libfunc(&registry, &mut entry, loc(), &helper, &mut metadata, &libfunc);
    assert!(r.is_ok());
    assert_eq!(entry.ops, vec![Operation::Branch { target: 11, operands: vec![] }]);
}

#[test]
fn lowering_walks_the_statements_in_program_order() {
    let registry = ProgramRegistry::new(vec![]);
    let mut metadata = MetadataStorage::new();
    let statements = vec![
        (ConcreteLibfunc::UnconditionalJump(jump_info()), LibfuncHelper { successors: vec![1] }),
        (ConcreteLibfunc::UnconditionalJump(jump_info()), LibfuncHelper { successors: vec![2] }),
    ];

    let blocks = lower_function(&registry, &statements, &mut metadata, loc());
    assert_eq!(blocks.len(), 2);
    assert_eq!(blocks[0].ops, vec![Operation::Branch { target: 1, operands: vec![] }]);
    assert_eq!(blocks[1].ops, vec![Operation::Branch { target: 2, operands: vec![] }]);
}

#[test]
fn wrapped_calldata_preserves_scalar_order() {
    let scalars = vec![Felt::from(10u64), Felt::from(20u64), Felt::from(30u64)];
    let wrapped = wrap_calldata(&scalars);
    assert_eq!(
        wrapped,
        Value::Struct {
            fields: vec![Value::Array(vec![
                Value::Felt252(Felt::from(10u64)),
                Value::Felt252(Felt::from(20u64)),
                Value::Felt252(Felt::from(30u64)),
            ])],
            debug_name: None,
        }
    );
}
