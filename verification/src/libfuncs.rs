//! The libfunc lowering framework: one lowering procedure per concrete
//! operation kind, dispatched by operation kind, each appending target
//! instructions at a supplied insertion point and terminating it consistently
//! with the operation's declared successor branches.

pub mod unconditional_jump;

use vstd::prelude::*;

use crate::ir::{Block, LibfuncHelper, Location, Operation};
use crate::metadata::MetadataStorage;
use crate::program::{FunctionSignature, ProgramRegistry};
use crate::Error;

verus! {

/// The concrete descriptor of a signature-only operation: it carries nothing
/// beyond its declared signature.
#[derive(Debug, PartialEq)]
pub struct SignatureOnlyConcreteLibfunc {
    pub signature: FunctionSignature,
}

/// One concrete operation of the catalog.
///
/// The catalog is an open set: adding an operation kind adds one variant here
/// and one lowering procedure, a purely additive, local change; an operation
/// with no registered procedure cannot be constructed at all.
#[derive(Debug, PartialEq)]
pub enum ConcreteLibfunc {
    /// The unconditional jump: one declared successor, no operands, no
    /// fallible construction step.
    UnconditionalJump(SignatureOnlyConcreteLibfunc),
}

impl ConcreteLibfunc {
    /// The number of successor branches the operation declares.
    pub open spec fn branch_count(self) -> int {
        match self {
            ConcreteLibfunc::UnconditionalJump(_) => 1,
        }
    }
}

/// The lowering of an unconditional jump: exactly one instruction was
/// appended to `old_ops`, an unconditional branch to declared successor
/// branch 0 carrying zero operands, and nothing else.
pub open spec fn lowers_jump(old_ops: Seq<Operation>, new_ops: Seq<Operation>, helper: LibfuncHelper) -> bool {
    &&& new_ops.len() == old_ops.len() + 1
    &&& new_ops.take(old_ops.len() as int) == old_ops
    &&& new_ops.last().is_branch_to(helper.successors@[0], Seq::<u64>::empty())
}

/// Law: the jump lowering is independent of the metadata store's contents.
/// `build` already ensures the store itself is left unchanged; this states
/// the other half: two lowerings that start from equal blocks against the
/// same one-successor helper produce the same block — equal length and, for
/// every position, observationally equal instructions — so nothing either
/// store held can influence what was appended.
pub proof fn lemma_jump_lowering_metadata_independent(
    start: Seq<Operation>,
    run1: Seq<Operation>,
    run2: Seq<Operation>,
    helper: LibfuncHelper,
)
    requires
        helper.successors@.len() == 1,
        lowers_jump(start, run1, helper),
        lowers_jump(start, run2, helper),
    ensures
        run1.len() == run2.len(),
        forall|i: int| 0 <= i < run1.len() ==> (#[trigger] run1[i]).equiv(run2[i]),
{
    assert forall|i: int| 0 <= i < run1.len() implies (#[trigger] run1[i]).equiv(run2[i]) by {
        if i < start.len() {
            assert(run1.take(start.len() as int)[i] == run1[i]);
            assert(run2.take(start.len() as int)[i] == run2[i]);
            assert(run1[i] == run2[i]);
            crate::ir::lemma_op_equiv_reflexive(run1[i]);
        } else {
            assert(run1[i] == run1.last());
            assert(run2[i] == run2.last());
        }
    }
}

/// What one lowering step guarantees for each operation kind.
pub open spec fn lowered(
    libfunc: ConcreteLibfunc,
    old_ops: Seq<Operation>,
    new_ops: Seq<Operation>,
    helper: LibfuncHelper,
) -> bool {
    match libfunc {
        ConcreteLibfunc::UnconditionalJump(_) => lowers_jump(old_ops, new_ops, helper),
    }
}

/// Dispatch: lowers one concrete operation at the insertion point `entry`.
///
/// The insertion point ends up terminated consistently with one of the
/// operation's declared successor branches, and the metadata store is left
/// exactly as the operation's procedure leaves it.
pub fn build_libfunc(
    registry: &ProgramRegistry,
    entry: &mut Block,
    location: Location,
    helper: &LibfuncHelper,
    metadata: &mut MetadataStorage,
    libfunc: &ConcreteLibfunc,
) -> (r: Result<(), Error>)
    requires
        helper.successors@.len() == libfunc.branch_count(),
    ensures
        r is Ok,
        lowered(*libfunc, old(entry).ops@, final(entry).ops@, *helper),
        final(entry).terminated(),
        *final(metadata) == *old(metadata),
{
    match libfunc {
        ConcreteLibfunc::UnconditionalJump(info) => unconditional_jump::build(
            registry,
            entry,
            location,
            helper,
            metadata,
            info,
        ),
    }
}

/// One linear pass over a function's operations in program order: each
/// operation is lowered into a fresh block against its own helper.
pub fn lower_function(
    registry: &ProgramRegistry,
    statements: &Vec<(ConcreteLibfunc, LibfuncHelper)>,
    metadata: &mut MetadataStorage,
    location: Location,
) -> (r: Vec<Block>)
    requires
        forall|i: int|
            0 <= i < statements@.len() ==> (#[trigger] statements@[i]).1.successors@.len()
                == statements@[i].0.branch_count(),
    ensures
        r@.len() == statements@.len(),
        forall|i: int|
            0 <= i < r@.len() ==> lowered(
                statements@[i].0,
                Seq::<Operation>::empty(),
                (#[trigger] r@[i]).ops@,
                statements@[i].1,
            ) && r@[i].terminated(),
        *final(metadata) == *old(metadata),
{
    let ghost meta0 = *metadata;
    let mut blocks: Vec<Block> = Vec::new();
    let mut i: usize = 0;
    while i < statements.len()
        invariant
            i <= statements@.len(),
            blocks@.len() == i,
            forall|k: int|
                0 <= k < statements@.len() ==> (#[trigger] statements@[k]).1.successors@.len()
                    == statements@[k].0.branch_count(),
            forall|k: int|
                0 <= k < i ==> lowered(
                    statements@[k].0,
                    Seq::<Operation>::empty(),
                    (#[trigger] blocks@[k]).ops@,
                    statements@[k].1,
                ) && blocks@[k].terminated(),
            *metadata == meta0,
        decreases statements@.len() - i,
    {
        let mut block = Block::new();
        let result = build_libfunc(
            registry,
            &mut block,
            location,
            &statements[i].1,
            metadata,
            &statements[i].0,
        );
        match result {
            Ok(()) => {},
            Err(_) => {
                proof {
                    assert(false);
                }
            },
        }
        blocks.push(block);
        i += 1;
    }
    blocks
}

} // verus!
