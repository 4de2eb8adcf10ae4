//! The record of one defined function, and the instructions of its body.

use vstd::prelude::*;

verus! {

/// A numeric value type of WebAssembly.
#[derive(Clone, Copy, Debug, PartialEq, Eq, Structural)]
pub enum ValueType {
    I32,
    I64,
    F32,
    F64,
}

impl DeepView for ValueType {
    type V = ValueType;

    open spec fn deep_view(&self) -> ValueType {
        *self
    }
}

/// One instruction of a function body.
///
/// The four kinds that the matcher looks into carry their operands, in the
/// order of the binary format. Every other instruction is kept as `Other`,
/// with the bytes of its binary encoding: opcode first, then the immediates,
/// each written in the one way that a writer of the format has for it. Two
/// such instructions are the same where their bytes are.
#[derive(Debug, PartialEq, Eq)]
pub enum Instruction {
    /// `i32.store`, with its alignment and its offset.
    I32Store(u32, u32),
    /// `i32.const`, with its value.
    I32Const(i32),
    /// `call`, with the index of the callee.
    Call(u32),
    /// `call_indirect`, with the index of the type and the reserved table byte.
    CallIndirect(u32, u8),
    /// Any other instruction, as the bytes of its encoding.
    Other(Vec<u8>),
}

/// The mathematical value of an [`Instruction`].
#[verifier::ext_equal]
pub enum InstructionView {
    I32Store(u32, u32),
    I32Const(i32),
    Call(u32),
    CallIndirect(u32, u8),
    Other(Seq<u8>),
}

impl DeepView for Instruction {
    type V = InstructionView;

    open spec fn deep_view(&self) -> InstructionView {
        match *self {
            Instruction::I32Store(align, offset) => InstructionView::I32Store(align, offset),
            Instruction::I32Const(value) => InstructionView::I32Const(value),
            Instruction::Call(callee) => InstructionView::Call(callee),
            Instruction::CallIndirect(type_index, table) => InstructionView::CallIndirect(
                type_index,
                table,
            ),
            Instruction::Other(bytes) => InstructionView::Other(bytes@),
        }
    }
}

/// Tells whether two byte strings are equal.
pub fn bytes_equal(left: &[u8], right: &[u8]) -> (r: bool)
    ensures
        r == (left@ == right@),
{
    if left.len() != right.len() {
        return false;
    }
    let mut i: usize = 0;
    while i < left.len()
        invariant
            left@.len() == right@.len(),
            i <= left@.len(),
            forall|k: int| 0 <= k < i ==> left@[k] == right@[k],
        decreases left@.len() - i,
    {
        if left[i] != right[i] {
            return false;
        }
        i += 1;
    }
    assert(left@ =~= right@);
    true
}

/// Copies a byte string.
pub fn copy_bytes(bytes: &[u8]) -> (r: Vec<u8>)
    ensures
        r@ == bytes@,
{
    let mut copy: Vec<u8> = Vec::with_capacity(bytes.len());
    let mut i: usize = 0;
    while i < bytes.len()
        invariant
            i <= bytes@.len(),
            copy@ == bytes@.take(i as int),
        decreases bytes@.len() - i,
    {
        copy.push(bytes[i]);
        assert(bytes@.take(i as int).push(bytes@[i as int]) =~= bytes@.take(i + 1));
        i += 1;
    }
    assert(bytes@.take(bytes@.len() as int) =~= bytes@);
    copy
}

impl Instruction {
    /// Tells whether `self` and `other` are the same instruction: the same
    /// kind with the same operands.
    pub fn same(&self, other: &Instruction) -> (r: bool)
        ensures
            r == (self.deep_view() == other.deep_view()),
    {
        match (self, other) {
            (Instruction::I32Store(a1, o1), Instruction::I32Store(a2, o2)) => *a1 == *a2 && *o1
                == *o2,
            (Instruction::I32Const(v1), Instruction::I32Const(v2)) => *v1 == *v2,
            (Instruction::Call(c1), Instruction::Call(c2)) => *c1 == *c2,
            (Instruction::CallIndirect(t1, r1), Instruction::CallIndirect(t2, r2)) => *t1 == *t2
                && *r1 == *r2,
            (Instruction::Other(b1), Instruction::Other(b2)) => bytes_equal(
                b1.as_slice(),
                b2.as_slice(),
            ),
            _ => false,
        }
    }

    /// Makes a copy of `self`.
    pub fn duplicate(&self) -> (r: Instruction)
        ensures
            r.deep_view() == self.deep_view(),
    {
        match self {
            Instruction::I32Store(align, offset) => Instruction::I32Store(*align, *offset),
            Instruction::I32Const(value) => Instruction::I32Const(*value),
            Instruction::Call(callee) => Instruction::Call(*callee),
            Instruction::CallIndirect(type_index, table) => Instruction::CallIndirect(
                *type_index,
                *table,
            ),
            Instruction::Other(bytes) => Instruction::Other(copy_bytes(bytes.as_slice())),
        }
    }
}

/// One defined function of a module.
#[derive(Debug, PartialEq, Eq)]
pub struct Function {
    /// The index of the function among all functions of the module, the
    /// imported ones counted first.
    pub id: u32,
    /// The name that the module's name section gives to the function.
    pub name: Option<String>,
    pub return_type: Option<ValueType>,
    pub param_types: Vec<ValueType>,
    /// The types of the declared locals, one entry for each local.
    pub local_types: Vec<ValueType>,
    pub instructions: Vec<Instruction>,
}

/// The mathematical value of a [`Function`].
#[verifier::ext_equal]
pub struct FunctionView {
    pub id: u32,
    pub name: Option<Seq<char>>,
    pub return_type: Option<ValueType>,
    pub param_types: Seq<ValueType>,
    pub local_types: Seq<ValueType>,
    pub instructions: Seq<InstructionView>,
}

impl DeepView for Function {
    type V = FunctionView;

    open spec fn deep_view(&self) -> FunctionView {
        FunctionView {
            id: self.id,
            name: self.name.deep_view(),
            return_type: self.return_type,
            param_types: self.param_types@,
            local_types: self.local_types@,
            instructions: self.instructions.deep_view(),
        }
    }
}

} // verus!
