//! The target-instruction model the lowering framework appends into: blocks,
//! operations, and the helper exposing an operation's declared successor
//! branches.

use vstd::prelude::*;

verus! {

/// A source location carried for diagnostics. Lowering output never depends
/// on it.
#[derive(Debug, Clone, Copy, PartialEq, Eq)]
pub struct Location {
    pub line: u64,
    pub column: u64,
}

/// One target instruction. Adding an instruction kind adds a variant here.
#[derive(Debug, PartialEq)]
pub enum Operation {
    /// Defines a constant value id; the simplest non-terminating kind.
    Const { result: u64, value: u64 },
    /// An unconditional transfer of control to a block, carrying operand
    /// value ids; always ends its block.
    Branch { target: u64, operands: Vec<u64> },
}

impl Operation {
    /// Whether the instruction ends its block.
    pub open spec fn is_terminator(self) -> bool {
        match self {
            Operation::Const { .. } => false,
            Operation::Branch { .. } => true,
        }
    }

    /// The instruction is an unconditional branch to block `target` carrying
    /// exactly `operands`.
    pub open spec fn is_branch_to(self, target: u64, operands: Seq<u64>) -> bool {
        match self {
            Operation::Branch { target: t, operands: o } => t == target && o@ == operands,
            _ => false,
        }
    }

    /// Observational equality of two instructions: same kind and same fields,
    /// comparing operand vectors by their contents.
    pub open spec fn equiv(self, other: Operation) -> bool {
        match (self, other) {
            (
                Operation::Const { result: r1, value: v1 },
                Operation::Const { result: r2, value: v2 },
            ) => r1 == r2 && v1 == v2,
            (
                Operation::Branch { target: t1, operands: o1 },
                Operation::Branch { target: t2, operands: o2 },
            ) => t1 == t2 && o1@ == o2@,
            _ => false,
        }
    }
}

/// Observational equality of instructions is reflexive.
pub proof fn lemma_op_equiv_reflexive(a: Operation)
    ensures
        a.equiv(a),
{
    match a {
        Operation::Const { .. } => {},
        Operation::Branch { .. } => {},
    }
}

/// An insertion point: target instructions appended in program order.
#[derive(Debug, PartialEq)]
pub struct Block {
    pub ops: Vec<Operation>,
}

impl Block {
    /// The block ends with a terminator.
    pub open spec fn terminated(self) -> bool {
        self.ops@.len() > 0 && self.ops@.last().is_terminator()
    }

    pub fn new() -> (r: Block)
        ensures
            r.ops@ == Seq::<Operation>::empty(),
    {
        Block { ops: Vec::new() }
    }

    /// Appends one instruction at the insertion point.
    pub fn append_operation(&mut self, op: Operation)
        ensures
            final(self).ops@ == old(self).ops@.push(op),
    {
        self.ops.push(op);
    }
}

/// Builder utility exposing one operation's declared successor blocks and its
/// branch-construction primitives, abstracting branching mechanics away from
/// the individual lowering procedures.
#[derive(Debug, PartialEq)]
pub struct LibfuncHelper {
    /// The block ids of the operation's declared successor branches, in
    /// declaration order.
    pub successors: Vec<u64>,
}

impl LibfuncHelper {
    /// An unconditional branch to declared successor branch `branch`,
    /// carrying `operands`. The location serves diagnostics only.
    pub fn br(&self, branch: usize, operands: Vec<u64>, _location: Location) -> (r: Operation)
        requires
            branch < self.successors@.len(),
        ensures
            r.is_branch_to(self.successors@[branch as int], operands@),
            r.is_terminator(),
    {
        Operation::Branch { target: self.successors[branch], operands }
    }
}

} // verus!
