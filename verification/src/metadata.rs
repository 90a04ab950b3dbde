//! The type-indexed, mutable, single-compilation-scoped metadata store shared
//! across all lowering calls. One fresh instance exists per compilation; it is
//! never ambient global state.

use vstd::prelude::*;

use crate::gas::GasMetadata;

verus! {

/// One cross-cutting artifact registered in the store. The store is indexed
/// by artifact kind and holds at most one entry per kind.
#[derive(Debug)]
pub enum MetadataEntry {
    /// The gas metadata, extracted (removed) into the executor at build time.
    Gas(GasMetadata),
    /// Shared runtime declarations registered once and reused across
    /// lowerings, by symbol id.
    RuntimeBindings(Vec<u64>),
}

impl MetadataEntry {
    /// The type index of the entry.
    pub open spec fn tag(self) -> int {
        match self {
            MetadataEntry::Gas(_) => 0,
            MetadataEntry::RuntimeBindings(_) => 1,
        }
    }

    fn tag_value(&self) -> (t: u64)
        ensures
            t == self.tag(),
    {
        match self {
            MetadataEntry::Gas(_) => 0,
            MetadataEntry::RuntimeBindings(_) => 1,
        }
    }
}

/// Type-indexed storage: at most one entry per artifact kind, single writer,
/// scoped to one compilation pass.
#[derive(Debug)]
pub struct MetadataStorage {
    entries: Vec<MetadataEntry>,
}

impl MetadataStorage {
    /// The stored entries, in insertion order.
    pub closed spec fn entries_seq(self) -> Seq<MetadataEntry> {
        self.entries@
    }

    /// Some entry of type index `t` is present.
    pub open spec fn has_tag(self, t: int) -> bool {
        exists|i: int| 0 <= i < self.entries_seq().len() && (#[trigger] self.entries_seq()[i]).tag() == t
    }

    /// Type-indexing discipline: no two entries share a type index.
    pub open spec fn wf(self) -> bool {
        forall|i: int, j: int|
            0 <= i < j < self.entries_seq().len() ==> (#[trigger] self.entries_seq()[i]).tag() != (
            #[trigger] self.entries_seq()[j]).tag()
    }

    pub fn new() -> (r: Self)
        ensures
            r.entries_seq() == Seq::<MetadataEntry>::empty(),
            r.wf(),
    {
        MetadataStorage { entries: Vec::new() }
    }

    /// Index of the entry with type index `t`, if one is present.
    fn find_tag(&self, t: u64) -> (r: Option<usize>)
        ensures
            match r {
                Some(i) => i < self.entries_seq().len() && self.entries_seq()[i as int].tag()
                    == t,
                None => forall|j: int|
                    0 <= j < self.entries_seq().len() ==> (#[trigger] self.entries_seq()[j]).tag()
                        != t,
            },
    {
        let mut i: usize = 0;
        while i < self.entries.len()
            invariant
                i <= self.entries@.len(),
                forall|j: int| 0 <= j < i ==> (#[trigger] self.entries@[j]).tag() != t,
            decreases self.entries@.len() - i,
        {
            if self.entries[i].tag_value() == t {
                return Some(i);
            }
            i += 1;
        }
        None
    }

    /// Registers `entry` unless an entry of the same kind already exists.
    /// Returns whether the entry was inserted.
    pub fn insert(&mut self, entry: MetadataEntry) -> (r: bool)
        requires
            old(self).wf(),
        ensures
            final(self).wf(),
            r == !old(self).has_tag(entry.tag()),
            r ==> final(self).entries_seq() == old(self).entries_seq().push(entry),
            !r ==> *final(self) == *old(self),
    {
        let t = entry.tag_value();
        match self.find_tag(t) {
            Some(i) => {
                proof {
                    assert((old(self).entries_seq()[i as int]).tag() == entry.tag());
                }
                false
            },
            None => {
                let ghost pre = self.entries@;
                self.entries.push(entry);
                proof {
                    assert forall|a: int, b: int|
                        0 <= a < b < self.entries@.len() implies (
                    #[trigger] self.entries@[a]).tag() != (#[trigger] self.entries@[b]).tag() by {
                        assert(self.entries@[a] == pre[a]);
                        if b < pre.len() {
                            assert(self.entries@[b] == pre[b]);
                            assert((old(self).entries_seq()[a]).tag() != (
                            old(self).entries_seq()[b]).tag());
                        } else {
                            assert(self.entries@[b] == entry);
                            assert((old(self).entries_seq()[a]).tag() != entry.tag());
                        }
                    }
                }
                true
            },
        }
    }

    /// Extracts (removes) the gas-metadata entry, if present.
    pub fn remove_gas(&mut self) -> (r: Option<GasMetadata>)
        requires
            old(self).wf(),
        ensures
            final(self).wf(),
            match r {
                Some(g) => {
                    &&& exists|i: int|
                        0 <= i < old(self).entries_seq().len()
                            && old(self).entries_seq()[i] == MetadataEntry::Gas(g)
                            && final(self).entries_seq() == old(self).entries_seq().remove(i)
                    &&& !final(self).has_tag(0)
                },
                None => !old(self).has_tag(0) && *final(self) == *old(self),
            },
    {
        match self.find_tag(0) {
            Some(i) => {
                let ghost idx = i as int;
                let ghost pre = self.entries@;
                let entry = self.entries.remove(i);
                match entry {
                    MetadataEntry::Gas(g) => {
                        proof {
                            assert(pre[idx].tag() == 0);
                            assert(self.entries@ =~= pre.remove(idx));
                            assert forall|a: int, b: int|
                                0 <= a < b < self.entries@.len() implies (
                            #[trigger] self.entries@[a]).tag() != (#[trigger] self.entries@[b]).tag() by {
                                assert(self.entries@[a] == if a < idx {
                                    pre[a]
                                } else {
                                    pre[a + 1]
                                });
                                assert(self.entries@[b] == if b < idx {
                                    pre[b]
                                } else {
                                    pre[b + 1]
                                });
                            }
                            assert forall|a: int| 0 <= a < self.entries@.len() implies (
                            #[trigger] self.entries@[a]).tag() != 0 by {
                                assert(self.entries@[a] == if a < idx {
                                    pre[a]
                                } else {
                                    pre[a + 1]
                                });
                                if idx <= a {
                                    assert((old(self).entries_seq()[idx]).tag() != (
                                    old(self).entries_seq()[a + 1]).tag());
                                } else {
                                    assert((old(self).entries_seq()[idx]).tag() != (
                                    old(self).entries_seq()[a]).tag());
                                }
                            }
                            assert(0 <= idx < pre.len() && pre[idx] == MetadataEntry::Gas(g)
                                && self.entries@ == pre.remove(idx));
                        }
                        Some(g)
                    },
                    MetadataEntry::RuntimeBindings(_) => {
                        proof {
                            assert(false);
                        }
                        None
                    },
                }
            },
            None => None,
        }
    }
}

} // verus!
