//! Lowering of the unconditional jump: the minimal template every other
//! operation's lowering generalizes — resolve inputs, compute nothing, select
//! the one declared successor, terminate with a branch carrying no operands.

use vstd::prelude::*;

use crate::ir::{Block, LibfuncHelper, Location};
use crate::metadata::MetadataStorage;
use crate::program::ProgramRegistry;
use crate::Error;

verus! {

/// Lowers the jump operation at the insertion point `entry`.
///
/// The operation has no fallible construction step, so the result is always
/// `Ok`. Appends a single unconditional control transfer to declared
/// successor branch 0 with zero carried operands, and nothing else, whatever
/// the metadata store holds.
pub fn build(
    _registry: &ProgramRegistry,
    entry: &mut Block,
    location: Location,
    helper: &LibfuncHelper,
    _metadata: &mut MetadataStorage,
    _info: &crate::libfuncs::SignatureOnlyConcreteLibfunc,
) -> (r: Result<(), Error>)
    requires
        helper.successors@.len() == 1,
    ensures
        r is Ok,
        final(entry).ops@.len() == old(entry).ops@.len() + 1,
        final(entry).ops@.take(old(entry).ops@.len() as int) == old(entry).ops@,
        final(entry).ops@.last().is_branch_to(helper.successors@[0], Seq::<u64>::empty()),
        final(entry).terminated(),
        *final(_metadata) == *old(_metadata),
{
    let op = helper.br(0, Vec::new(), location);
    entry.append_operation(op);
    proof {
        assert(entry.ops@.take(old(entry).ops@.len() as int) =~= old(entry).ops@);
        assert(entry.ops@.last() == op);
    }
    Ok(())
}

} // verus!
