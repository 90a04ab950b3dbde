//! Tagged runtime values crossing the native boundary, the raw invocation
//! outcome, and its reshaping for contract-style callers.

use vstd::prelude::*;

use starknet_types_core::felt::Felt;

use crate::Error;

verus! {

/// starknet_types_core's 252-bit field element. The engine moves these values
/// across the boundary without computing on them, so the type is carried
/// opaquely.
#[verifier::external_type_specification]
#[verifier::external_body]
pub struct ExFelt(Felt);

/// A tagged runtime value crossing the native boundary.
///
/// Primitive scalar, ordered sequence and composite record are the minimum
/// variant set; further numeric and enum variants generalize the same tagging
/// discipline.
#[derive(Debug, PartialEq)]
pub enum Value {
    /// A primitive scalar: one field element.
    Felt252(Felt),
    /// An ordered sequence of sub-values.
    Array(Vec<Value>),
    /// A composite record of sub-values.
    Struct { fields: Vec<Value>, debug_name: Option<Vec<u8>> },
}

/// `v` is the single composite "calldata" argument wrapping the flat, ordered
/// scalar sequence `args`: an anonymous record of exactly one field, holding
/// the array of the scalars in input order.
pub open spec fn is_calldata_for(v: Value, args: Seq<Felt>) -> bool {
    match v {
        Value::Struct { fields, debug_name } => {
            &&& debug_name is None
            &&& fields@.len() == 1
            &&& match fields@[0] {
                Value::Array(items) => items@ == args.map_values(|f: Felt| Value::Felt252(f)),
                _ => false,
            }
        },
        _ => false,
    }
}

/// Wraps a flat sequence of scalar field values into the single composite
/// calldata argument the contract convention expects. The transformation is
/// pure and order-preserving.
pub fn wrap_calldata(args: &Vec<Felt>) -> (r: Value)
    ensures
        is_calldata_for(r, args@),
{
    let mut items: Vec<Value> = Vec::new();
    let mut i: usize = 0;
    while i < args.len()
        invariant
            i <= args@.len(),
            items@ == args@.take(i as int).map_values(|f: Felt| Value::Felt252(f)),
        decreases args@.len() - i,
    {
        items.push(Value::Felt252(args[i]));
        proof {
            assert(items@ =~= args@.take(i as int + 1).map_values(|f: Felt| Value::Felt252(f)));
        }
        i += 1;
    }
    proof {
        assert(args@.take(i as int) =~= args@);
    }
    let mut fields: Vec<Value> = Vec::new();
    fields.push(Value::Array(items));
    Value::Struct { fields, debug_name: None }
}

/// The raw outcome of one invocation: return values plus remaining gas.
///
/// In-program faults are carried here as data, never as call errors: `failure`
/// holds the fault payload of a trap or explicit revert.
#[derive(Debug, PartialEq)]
pub struct ExecutionResult {
    pub remaining_gas: u128,
    pub return_values: Vec<Value>,
    pub failure: Option<Vec<Felt>>,
}

/// `vals` is exactly the scalar sequence `felts`, element by element.
pub open spec fn is_scalar_seq_of(vals: Seq<Value>, felts: Seq<Felt>) -> bool {
    &&& felts.len() == vals.len()
    &&& forall|i: int| 0 <= i < vals.len() ==> vals[i] == Value::Felt252(felts[i])
}

/// Every value in `vals` is a primitive scalar.
pub open spec fn all_scalars(vals: Seq<Value>) -> bool {
    forall|i: int| 0 <= i < vals.len() ==> (#[trigger] vals[i]) is Felt252
}

/// An `ExecutionResult` reshaped for the contract calling convention:
/// a flat scalar sequence plus an explicit failure flag.
#[derive(Debug, PartialEq)]
pub struct ContractExecutionResult {
    pub remaining_gas: u128,
    pub failure_flag: bool,
    pub return_values: Vec<Felt>,
}

impl ContractExecutionResult {
    /// Reshapes a raw outcome for contract-style callers.
    ///
    /// An in-program failure keeps its payload under a raised failure flag;
    /// a success must return a flat sequence of scalars, which is kept in
    /// order. A success whose values are not all scalars is the machinery
    /// error `UnexpectedValue`.
    #[verifier::loop_isolation(false)]
    pub fn from_execution_result(result: ExecutionResult) -> (r: Result<
        ContractExecutionResult,
        Error,
    >)
        ensures
            match r {
                Ok(c) => {
                    &&& c.remaining_gas == result.remaining_gas
                    &&& match result.failure {
                        Some(payload) => c.failure_flag && c.return_values@ == payload@,
                        None => !c.failure_flag && is_scalar_seq_of(
                            result.return_values@,
                            c.return_values@,
                        ),
                    }
                },
                Err(e) => {
                    &&& e == Error::UnexpectedValue
                    &&& result.failure is None
                    &&& !all_scalars(result.return_values@)
                },
            },
    {
        let ExecutionResult { remaining_gas, return_values, failure } = result;
        match failure {
            Some(payload) => Ok(
                ContractExecutionResult {
                    remaining_gas,
                    failure_flag: true,
                    return_values: payload,
                },
            ),
            None => {
                let mut scalars: Vec<Felt> = Vec::new();
                let mut i: usize = 0;
                while i < return_values.len()
                    invariant
                        i <= return_values@.len(),
                        scalars@.len() == i,
                        forall|j: int|
                            0 <= j < i ==> return_values@[j] == Value::Felt252(scalars@[j]),
                    decreases return_values@.len() - i,
                {
                    match &return_values[i] {
                        Value::Felt252(f) => {
                            scalars.push(*f);
                        },
                        _ => {
                            proof {
                                assert(!((return_values@[i as int]) is Felt252));
                                assert(!all_scalars(return_values@)) by {
                                    if all_scalars(return_values@) {
                                        assert((return_values@[i as int]) is Felt252);
                                    }
                                }
}
                            return Err(Error::UnexpectedValue);
                        },
                    }
                    i += 1;
                }
                Ok(
                    ContractExecutionResult {
                        remaining_gas,
                        failure_flag: false,
                        return_values: scalars,
                    },
                )
            },
        }
    }
}

} // verus!
