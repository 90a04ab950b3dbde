//! Per-function static gas data, and the single derivation the engine makes
//! from it: the initial budget of one invocation.

use vstd::prelude::*;

use crate::program::FunctionId;
use crate::utils::{assoc_find, assoc_lookup};
use crate::Error;

verus! {

/// The precomputed cost entry of one function.
#[derive(Debug, Clone, Copy, PartialEq, Eq)]
pub enum GasCost {
    /// The function requires no gas metering; resolution succeeds trivially
    /// with an empty budget.
    Unmetered,
    /// The function requires metering with the given initial gas.
    Metered(u128),
}

/// Precomputed resource-cost data per function, produced once upstream and
/// never mutated afterward.
#[derive(Debug)]
pub struct GasMetadata {
    costs: Vec<(u64, GasCost)>,
}

impl GasMetadata {
    /// The cost table as a sequence of (function id, cost) pairs.
    pub closed spec fn costs_seq(self) -> Seq<(u64, GasCost)> {
        self.costs@
    }

    /// The cost entry recorded for `id`, if any (first entry wins).
    pub open spec fn entry_for(self, id: u64) -> Option<GasCost> {
        assoc_lookup(self.costs_seq(), id)
    }

    /// Gas resolution as a pure function of (function id, explicit gas,
    /// metadata). An explicit budget always takes precedence over metadata;
    /// with no explicit budget, a metered entry supplies the budget, an
    /// unmetered entry succeeds trivially with zero, and a missing entry is
    /// the distinct failure `InsufficientGas`.
    pub open spec fn initial_gas_spec(self, id: u64, explicit: Option<u128>) -> Result<u128, Error> {
        match explicit {
            Some(g) => Ok(g),
            None => match self.entry_for(id) {
                Some(GasCost::Metered(c)) => Ok(c),
                Some(GasCost::Unmetered) => Ok(0),
                None => Err(Error::InsufficientGas),
            },
        }
    }

    pub fn new(costs: Vec<(u64, GasCost)>) -> (r: Self)
        ensures
            r.costs_seq() == costs@,
    {
        GasMetadata { costs }
    }

    /// Resolves the initial budget for one invocation of `function_id`.
    ///
    /// Resolution happens strictly before any native code runs: on
    /// `InsufficientGas` the caller never reaches an entry point.
    pub fn get_initial_available_gas(&self, function_id: &FunctionId, gas: Option<u128>) -> (r: Result<
        u128,
        Error,
    >)
        ensures
            r == self.initial_gas_spec(function_id.id, gas),
    {
        match gas {
            Some(g) => Ok(g),
            None => match assoc_find(&self.costs, function_id.id) {
                Some(GasCost::Metered(c)) => Ok(c),
                Some(GasCost::Unmetered) => Ok(0),
                None => Err(Error::InsufficientGas),
            },
        }
    }
}

/// Law: an explicit gas budget always takes precedence over metadata.
pub proof fn lemma_explicit_gas_wins(m: GasMetadata, id: u64, g: u128)
    ensures
        m.initial_gas_spec(id, Some(g)) == Ok::<u128, Error>(g),
{
}

/// Law: with no explicit budget and no metadata entry, resolution fails with
/// `InsufficientGas`, and only then.
pub proof fn lemma_gas_resolution_fails_iff_unresolvable(m: GasMetadata, id: u64, explicit: Option<
    u128,
>)
    ensures
        m.initial_gas_spec(id, explicit) is Err <==> (explicit is None && m.entry_for(id) is None),
        m.initial_gas_spec(id, explicit) is Err ==> m.initial_gas_spec(id, explicit) == Err::<
            u128,
            Error,
        >(Error::InsufficientGas),
{
}

} // verus!
