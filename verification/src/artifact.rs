//! The loaded dynamic artifact, modelled by what the engine reads from it:
//! its exported symbol table. Loading and unloading are the owner's concern;
//! every address below is valid exactly as long as the artifact is.

use vstd::prelude::*;

use crate::utils::{assoc_lookup, bytes_eq};

verus! {

/// The exported symbols of one loaded dynamic artifact.
///
/// Each entry pairs an exported symbol name with the non-null address of its
/// entry point.
#[derive(Debug)]
pub struct NativeArtifact {
    symbols: Vec<(Vec<u8>, usize)>,
}

impl NativeArtifact {
    /// The symbol table as a sequence of (name, address) pairs.
    pub closed spec fn symbols_seq(self) -> Seq<(Seq<u8>, usize)> {
        self.symbols@.map_values(|p: (Vec<u8>, usize)| (p.0@, p.1))
    }

    /// Every exported address is non-null.
    pub open spec fn wf(self) -> bool {
        forall|i: int|
            0 <= i < self.symbols_seq().len() ==> (#[trigger] self.symbols_seq()[i]).1 != 0
    }

    /// The address exported under `name`, if any (first entry wins).
    pub open spec fn resolve(self, name: Seq<u8>) -> Option<usize> {
        assoc_lookup(self.symbols_seq(), name)
    }

    pub fn new(symbols: Vec<(Vec<u8>, usize)>) -> (r: Self)
        requires
            forall|i: int| 0 <= i < symbols@.len() ==> (#[trigger] symbols@[i]).1 != 0,
        ensures
            r.symbols_seq() == symbols@.map_values(|p: (Vec<u8>, usize)| (p.0@, p.1)),
            r.wf(),
    {
        let r = NativeArtifact { symbols };
        proof {
            assert forall|i: int| 0 <= i < r.symbols_seq().len() implies (#[trigger] r.symbols_seq()[i]).1
                != 0 by {
                assert(r.symbols_seq()[i].1 == r.symbols@[i].1);
            }
        }
        r
    }

    /// Looks an exported symbol up by name.
    pub fn resolve_symbol(&self, name: &Vec<u8>) -> (r: Option<usize>)
        ensures
            r == self.resolve(name@),
            self.wf() && r is Some ==> r != Some(0usize),
    {
        proof {
            assert(self.symbols_seq().skip(0) =~= self.symbols_seq());
        }
        let mut i: usize = 0;
        while i < self.symbols.len()
            invariant
                i <= self.symbols@.len(),
                assoc_lookup(self.symbols_seq(), name@) == assoc_lookup(
                    self.symbols_seq().skip(i as int),
                    name@,
                ),
            decreases self.symbols@.len() - i,
        {
            proof {
                assert(self.symbols_seq()[i as int] == (self.symbols@[i as int].0@, self.symbols@[i as int].1));
            }
            if bytes_eq(&self.symbols[i].0, name) {
                proof {
                    assert(self.symbols_seq().skip(i as int)[0] == self.symbols_seq()[i as int]);
                }
                return Some(self.symbols[i].1);
            }
            proof {
                crate::utils::lemma_assoc_lookup_skip(self.symbols_seq(), name@, i as int);
            }
            i += 1;
        }
        proof {
            assert(self.symbols_seq().skip(i as int) =~= Seq::<(Seq<u8>, usize)>::empty());
        }
        None
    }
}

} // verus!
