//! The native calls this library decides on, one value per call.
use vstd::prelude::*;
use crate::handle::{BlockRef, TypeRef, ValueRef};

verus! {

/// Where a builder emits: nowhere yet, or at the end of a block.
#[derive(Clone, Copy, Debug, PartialEq, Eq, Structural)]
pub enum Cursor {
    Unpositioned,
    AtEnd(BlockRef),
}

/// Predicates of an integer comparison.
#[derive(Clone, Copy, Debug, PartialEq, Eq, Structural)]
pub enum IntPredicate {
    Eq,
    Ne,
    Ugt,
    Uge,
    Ult,
    Ule,
    Sgt,
    Sge,
    Slt,
    Sle,
}

/// Binary arithmetic and bitwise operations.
#[derive(Clone, Copy, Debug, PartialEq, Eq, Structural)]
pub enum BinOp {
    Add,
    Sub,
    Mul,
    SDiv,
    And,
    Or,
}

/// Unary operations.
#[derive(Clone, Copy, Debug, PartialEq, Eq, Structural)]
pub enum UnOp {
    Neg,
    Not,
}

/// Conversions of a value to a type.
#[derive(Clone, Copy, Debug, PartialEq, Eq, Structural)]
pub enum CastOp {
    BitCast,
    PtrToInt,
    SExt,
    ZExt,
}

/// One instruction, without its operand list and its name.
#[derive(Clone, Copy, Debug, PartialEq, Eq, Structural)]
pub enum Inst {
    Ret { val: ValueRef },
    RetVoid,
    Br { dest: BlockRef },
    CondBr { cond: ValueRef, then_block: BlockRef, else_block: BlockRef },
    Unreachable,
    Alloca { ty: TypeRef },
    Store { val: ValueRef, ptr: ValueRef },
    Load { ty: TypeRef, ptr: ValueRef },
    /// Element address; the indices are the operand list.
    Gep { ty: TypeRef, ptr: ValueRef, in_bounds: bool },
    InsertValue { agg: ValueRef, elt: ValueRef, index: u32 },
    ExtractValue { agg: ValueRef, index: u32 },
    Binary { op: BinOp, lhs: ValueRef, rhs: ValueRef },
    Unary { op: UnOp, val: ValueRef },
    ICmp { pred: IntPredicate, lhs: ValueRef, rhs: ValueRef },
    /// A call; the arguments are the operand list.
    Call { func: ValueRef },
    Cast { op: CastOp, val: ValueRef, ty: TypeRef },
}

/// A call into the native layer, with its arguments marshalled: names are
/// null-terminated, counts fit the native integer.
#[derive(Clone, Debug, PartialEq, Eq)]
pub enum NativeCall {
    ContextCreate,
    ContextDispose { ctx: usize },
    CreateBuilder { ctx: usize },
    DisposeBuilder { builder: usize },
    ModuleCreate { ctx: usize, name: Vec<u8> },
    VoidType { ctx: usize },
    IntType { ctx: usize, width: u32 },
    AppendBasicBlock { ctx: usize, func: ValueRef, name: Vec<u8> },
    ConstInt { ctx: usize, width: u32, bits: u64, sign_extend: bool },
    /// A string constant of the bytes of `text`, counted by length; the
    /// native layer appends a null byte only where `null_terminate` holds.
    ConstString { ctx: usize, text: Vec<u8>, null_terminate: bool },
    StructType { ctx: usize, elements: Vec<TypeRef>, count: u32, packed: bool },
    StructCreateNamed { ctx: usize, name: Vec<u8> },
    PositionAtEnd { builder: usize, block: BlockRef },
    /// Emit `inst` at the builder's cursor, which is `at`. An instruction
    /// without a result name has an empty `name`.
    Build {
        builder: usize,
        at: Cursor,
        inst: Inst,
        operands: Vec<ValueRef>,
        count: u32,
        name: Vec<u8>,
    },
    /// Emit a global string holding `text` (null-terminated) and its address.
    BuildGlobalString { builder: usize, at: Cursor, text: Vec<u8>, name: Vec<u8> },
}

/// `c` creates a module in `ctx` under the bytes `name`.
pub open spec fn creates_module(c: NativeCall, ctx: usize, name: Seq<u8>) -> bool {
    c matches NativeCall::ModuleCreate { ctx: x, name: n } && x == ctx && n@ == name
}

/// `c` appends a block named `name` to `func` in `ctx`.
pub open spec fn appends_block(c: NativeCall, ctx: usize, func: ValueRef, name: Seq<u8>) -> bool {
    c matches NativeCall::AppendBasicBlock { ctx: x, func: f, name: n } && x == ctx && f == func
        && n@ == name
}

/// `c` makes a string constant of exactly the bytes `text` in `ctx`, with no
/// terminator added.
pub open spec fn makes_string(c: NativeCall, ctx: usize, text: Seq<u8>) -> bool {
    c matches NativeCall::ConstString { ctx: x, text: t, null_terminate: z } && x == ctx
        && t@ == text && !z
}

/// `c` makes the anonymous struct type of `elements`, in order.
pub open spec fn makes_struct(c: NativeCall, ctx: usize, elements: Seq<TypeRef>, packed: bool) -> bool {
    c matches NativeCall::StructType { ctx: x, elements: e, count: n, packed: p } && x == ctx
        && e@ == elements && n == elements.len() && p == packed
}

/// `c` makes an opaque struct type registered as `name`.
pub open spec fn makes_named_struct(c: NativeCall, ctx: usize, name: Seq<u8>) -> bool {
    c matches NativeCall::StructCreateNamed { ctx: x, name: n } && x == ctx && n@ == name
}

/// `c` emits `inst` with `operands` and the bytes `name` through `builder`,
/// whose cursor is `at`.
pub open spec fn emits(
    c: NativeCall,
    builder: usize,
    at: Cursor,
    inst: Inst,
    operands: Seq<ValueRef>,
    name: Seq<u8>,
) -> bool {
    c matches NativeCall::Build { builder: b, at: a, inst: i, operands: o, count: n, name: m }
        && b == builder && a == at && i == inst && o@ == operands && n == operands.len()
        && m@ == name
}

/// `c` emits a global string of `text` named `name` through `builder`.
pub open spec fn emits_global_string(
    c: NativeCall,
    builder: usize,
    at: Cursor,
    text: Seq<u8>,
    name: Seq<u8>,
) -> bool {
    c matches NativeCall::BuildGlobalString { builder: b, at: a, text: t, name: m }
        && b == builder && a == at && t@ == text && m@ == name
}

} // verus!
