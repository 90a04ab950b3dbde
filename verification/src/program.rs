//! The immutable program catalog: function ids, signatures, and the registry
//! that maps each id to its concrete descriptor.

use vstd::prelude::*;

use crate::utils::assoc_lookup;

verus! {

/// Opaque stable identifier of a callable unit inside a program.
#[derive(Debug, PartialEq, Eq)]
pub struct FunctionId {
    /// Stable numeric identifier.
    pub id: u64,
    /// Optional human-readable name (ASCII bytes); when present it is used as
    /// the canonical mangled form of the id.
    pub debug_name: Option<Vec<u8>>,
}

/// Ordered parameter types plus return types of one function, by type id.
#[derive(Debug, PartialEq, Eq)]
pub struct FunctionSignature {
    pub param_types: Vec<u64>,
    pub ret_types: Vec<u64>,
}

/// Immutable catalog mapping function ids to call signatures.
///
/// Built once upstream and shared read-only afterward; a miss on lookup
/// indicates a build-time inconsistency, which callers surface as a typed
/// error rather than a recoverable runtime case.
#[derive(Debug)]
pub struct ProgramRegistry {
    entries: Vec<(u64, FunctionSignature)>,
}

impl ProgramRegistry {
    /// The catalog as a sequence of (function id, signature) pairs.
    pub closed spec fn entries_seq(self) -> Seq<(u64, FunctionSignature)> {
        self.entries@
    }

    /// The signature registered under `id`, if any (first entry wins).
    pub open spec fn lookup(self, id: u64) -> Option<FunctionSignature> {
        assoc_lookup(self.entries_seq(), id)
    }

    pub fn new(entries: Vec<(u64, FunctionSignature)>) -> (r: Self)
        ensures
            r.entries_seq() == entries@,
    {
        ProgramRegistry { entries }
    }

    /// Looks the function up by id; `None` signals the fatal catalog miss.
    pub fn get_function(&self, id: u64) -> (r: Option<&FunctionSignature>)
        ensures
            match r {
                Some(sig) => self.lookup(id) == Some(*sig),
                None => self.lookup(id) is None,
            },
    {
        proof {
            assert(self.entries@.skip(0) =~= self.entries@);
        }
        let mut i: usize = 0;
        while i < self.entries.len()
            invariant
                i <= self.entries@.len(),
                assoc_lookup(self.entries@, id) == assoc_lookup(self.entries@.skip(i as int), id),
            decreases self.entries@.len() - i,
        {
            if self.entries[i].0 == id {
                proof {
                    assert(self.entries@.skip(i as int)[0] == self.entries@[i as int]);
                }
                return Some(&self.entries[i].1);
            }
            proof {
                crate::utils::lemma_assoc_lookup_skip(self.entries@, id, i as int);
            }
            i += 1;
        }
        proof {
            assert(self.entries@.skip(i as int) =~= Seq::<(u64, FunctionSignature)>::empty());
        }
        None
    }
}

} // verus!
