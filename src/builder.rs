//! The builder: sole owner of one native builder handle, and a cursor that
//! says where its instructions go.
use vstd::prelude::*;
use vstd::string::StringSliceAdditionalSpecFns;
use crate::call::{emits, emits_global_string, BinOp, CastOp, Cursor, Inst, IntPredicate, NativeCall, UnOp};
use crate::handle::{BlockRef, Function, TypeRef, ValueRef};
use crate::text::{c_name, nul_free, terminated, text_bytes, TextError};

verus! {

/// `r` is what emitting `inst` named `name` gives: the emission through
/// `builder` at `at`, or `InvalidName` where `name` holds a null byte.
pub open spec fn emission(
    r: Result<NativeCall, TextError>,
    builder: usize,
    at: Cursor,
    inst: Inst,
    operands: Seq<ValueRef>,
    name: &str,
) -> bool {
    &&& r is Ok <==> nul_free(name.spec_bytes())
    &&& r is Ok ==> emits(r->Ok_0, builder, at, inst, operands, terminated(name.spec_bytes()))
    &&& r is Err ==> r->Err_0 == TextError::InvalidName
}

/// `after` is `before` moved to the end of `block`.
pub open spec fn repositioned(before: Builder, block: BlockRef, after: Builder) -> bool {
    after.handle() == before.handle() && after.position() == Cursor::AtEnd(block)
}

fn copy_values(s: &[ValueRef]) -> (r: Vec<ValueRef>)
    ensures
        r@ == s@,
{
    let mut v: Vec<ValueRef> = Vec::new();
    let mut i: usize = 0;
    while i < s.len()
        invariant
            i <= s@.len(),
            v@ == s@.subrange(0, i as int),
        decreases s@.len() - i,
    {
        v.push(s[i]);
        i = i + 1;
    }
    assert(v@ == s@);
    v
}

/// Owns one native builder handle. It is neither `Clone` nor `Copy`, and
/// `dispose` consumes it, so each `Builder` value gives at most one release
/// call, whatever the cursor. That makes the native handle released once only
/// where the host hands each handle to `new` once and runs each returned call
/// once.
///
/// Emitting while unpositioned, after a terminator, or with operands of the
/// wrong type or context is left to the native layer and not checked here;
/// each emission records the cursor it was made at.
#[derive(Debug)]
pub struct Builder {
    ptr: usize,
    cursor: Cursor,
}

impl Builder {
    /// The native handle this builder owns.
    pub closed spec fn handle(&self) -> usize {
        self.ptr
    }

    /// Where the next instruction goes.
    pub closed spec fn position(&self) -> Cursor {
        self.cursor
    }

    /// Takes ownership of the native builder `ptr`, made by the call that
    /// `Context::create_builder` gives; it starts unpositioned.
    pub fn new(ptr: usize) -> (r: Builder)
        ensures
            r.handle() == ptr,
            r.position() == Cursor::Unpositioned,
    {
        Builder { ptr, cursor: Cursor::Unpositioned }
    }

    pub fn ptr(&self) -> (r: usize)
        ensures
            r == self.handle(),
    {
        self.ptr
    }

    pub fn cursor(&self) -> (r: Cursor)
        ensures
            r == self.position(),
    {
        self.cursor
    }

    /// Releases the native builder: the one call that disposes it.
    pub fn dispose(self) -> (r: NativeCall)
        ensures
            r matches NativeCall::DisposeBuilder { builder } && builder == self.handle(),
    {
        NativeCall::DisposeBuilder { builder: self.ptr }
    }

    /// Moves the cursor to the end of `basic_block`.
    pub fn position_at_end(&mut self, basic_block: BlockRef) -> (r: NativeCall)
        ensures
            repositioned(*old(self), basic_block, *final(self)),
            r matches NativeCall::PositionAtEnd { builder, block } && builder == old(self).handle()
                && block == basic_block,
    {
        self.cursor = Cursor::AtEnd(basic_block);
        NativeCall::PositionAtEnd { builder: self.ptr, block: basic_block }
    }

    fn emit_unnamed(&self, inst: Inst) -> (r: NativeCall)
        ensures
            emits(r, self.handle(), self.position(), inst, seq![], seq![]),
    {
        NativeCall::Build {
            builder: self.ptr,
            at: self.cursor,
            inst,
            operands: Vec::new(),
            count: 0,
            name: Vec::new(),
        }
    }

    fn emit(&self, inst: Inst, operands: Vec<ValueRef>, name: &str) -> (r: Result<NativeCall, TextError>)
        requires
            operands@.len() <= u32::MAX,
        ensures
            emission(r, self.handle(), self.position(), inst, operands@, name),
    {
        match c_name(name) {
            Ok(n) => {
                let count = operands.len() as u32;
                Ok(NativeCall::Build { builder: self.ptr, at: self.cursor, inst, operands, count, name: n })
            },
            Err(e) => Err(e),
        }
    }

    /// A global holding `s`, null-terminated, and its address. `InvalidText`
    /// where `s` holds a null byte, else `InvalidName` where `name` does.
    pub fn build_global_string(&self, s: &str, name: &str) -> (r: Result<NativeCall, TextError>)
        ensures
            r is Ok <==> nul_free(s.spec_bytes()) && nul_free(name.spec_bytes()),
            r is Ok ==> emits_global_string(
                r->Ok_0,
                self.handle(),
                self.position(),
                terminated(s.spec_bytes()),
                terminated(name.spec_bytes()),
            ),
            r is Err ==> r->Err_0 == if nul_free(s.spec_bytes()) {
                TextError::InvalidName
            } else {
                TextError::InvalidText
            },
    {
        match text_bytes(s) {
            Some(mut t) => match c_name(name) {
                Ok(n) => {
                    t.push(0u8);
                    Ok(NativeCall::BuildGlobalString { builder: self.ptr, at: self.cursor, text: t, name: n })
                },
                Err(e) => Err(e),
            },
            None => Err(TextError::InvalidText),
        }
    }

    /// Returns `ret_val`: a terminator.
    pub fn build_ret(&mut self, ret_val: ValueRef) -> (r: NativeCall)
        ensures
            *final(self) == *old(self),
            emits(r, old(self).handle(), old(self).position(), Inst::Ret { val: ret_val }, seq![], seq![]),
    {
        self.emit_unnamed(Inst::Ret { val: ret_val })
    }

    /// Returns nothing: a terminator.
    pub fn build_ret_void(&self) -> (r: NativeCall)
        ensures
            emits(r, self.handle(), self.position(), Inst::RetVoid, seq![], seq![]),
    {
        self.emit_unnamed(Inst::RetVoid)
    }

    /// Reserves stack room for a `ty`.
    pub fn build_alloca(&mut self, ty: TypeRef, name: &str) -> (r: Result<NativeCall, TextError>)
        ensures
            *final(self) == *old(self),
            emission(r, old(self).handle(), old(self).position(), (Inst::Alloca { ty }), seq![], name),
    {
        self.emit(Inst::Alloca { ty }, Vec::new(), name)
    }

    /// Stores `val` at `ptr`.
    pub fn build_store(&mut self, val: ValueRef, ptr: ValueRef) -> (r: NativeCall)
        ensures
            *final(self) == *old(self),
            emits(r, old(self).handle(), old(self).position(), Inst::Store { val, ptr }, seq![], seq![]),
    {
        self.emit_unnamed(Inst::Store { val, ptr })
    }

    /// Loads a `ty` from `ptr`.
    pub fn build_load(&mut self, ty: TypeRef, ptr: ValueRef, name: &str) -> (r: Result<NativeCall, TextError>)
        ensures
            *final(self) == *old(self),
            emission(r, old(self).handle(), old(self).position(), (Inst::Load { ty, ptr }), seq![], name),
    {
        self.emit(Inst::Load { ty, ptr }, Vec::new(), name)
    }

    /// Calls `func` with `args`, in order.
    pub fn build_call(&mut self, func: Function, args: Vec<ValueRef>, name: &str) -> (r: Result<NativeCall, TextError>)
        requires
            args@.len() <= u32::MAX,
        ensures
            *final(self) == *old(self),
            emission(r, old(self).handle(), old(self).position(), (Inst::Call { func: func.ptr }), args@, name),
    {
        self.emit(Inst::Call { func: func.ptr }, args, name)
    }

    /// Integer addition.
    pub fn build_add(&mut self, lhs: ValueRef, rhs: ValueRef, name: &str) -> (r: Result<NativeCall, TextError>)
        ensures
            *final(self) == *old(self),
            emission(r, old(self).handle(), old(self).position(), (Inst::Binary { op: BinOp::Add, lhs, rhs }), seq![], name),
    {
        self.emit(Inst::Binary { op: BinOp::Add, lhs, rhs }, Vec::new(), name)
    }

    /// Integer subtraction.
    pub fn build_sub(&mut self, lhs: ValueRef, rhs: ValueRef, name: &str) -> (r: Result<NativeCall, TextError>)
        ensures
            *final(self) == *old(self),
            emission(r, old(self).handle(), old(self).position(), (Inst::Binary { op: BinOp::Sub, lhs, rhs }), seq![], name),
    {
        self.emit(Inst::Binary { op: BinOp::Sub, lhs, rhs }, Vec::new(), name)
    }

    /// Integer multiplication.
    pub fn build_mul(&mut self, lhs: ValueRef, rhs: ValueRef, name: &str) -> (r: Result<NativeCall, TextError>)
        ensures
            *final(self) == *old(self),
            emission(r, old(self).handle(), old(self).position(), (Inst::Binary { op: BinOp::Mul, lhs, rhs }), seq![], name),
    {
        self.emit(Inst::Binary { op: BinOp::Mul, lhs, rhs }, Vec::new(), name)
    }

    /// Signed integer division.
    pub fn build_sdiv(&mut self, lhs: ValueRef, rhs: ValueRef, name: &str) -> (r: Result<NativeCall, TextError>)
        ensures
            *final(self) == *old(self),
            emission(r, old(self).handle(), old(self).position(), (Inst::Binary { op: BinOp::SDiv, lhs, rhs }), seq![], name),
    {
        self.emit(Inst::Binary { op: BinOp::SDiv, lhs, rhs }, Vec::new(), name)
    }

    /// Integer negation.
    pub fn build_neg(&mut self, rhs: ValueRef, name: &str) -> (r: Result<NativeCall, TextError>)
        ensures
            *final(self) == *old(self),
            emission(r, old(self).handle(), old(self).position(), (Inst::Unary { op: UnOp::Neg, val: rhs }), seq![], name),
    {
        self.emit(Inst::Unary { op: UnOp::Neg, val: rhs }, Vec::new(), name)
    }

    /// Bitwise complement.
    pub fn build_not(&mut self, rhs: ValueRef, name: &str) -> (r: Result<NativeCall, TextError>)
        ensures
            *final(self) == *old(self),
            emission(r, old(self).handle(), old(self).position(), (Inst::Unary { op: UnOp::Not, val: rhs }), seq![], name),
    {
        self.emit(Inst::Unary { op: UnOp::Not, val: rhs }, Vec::new(), name)
    }

    /// Integer comparison by `op`.
    pub fn build_icmp(&mut self, op: IntPredicate, lhs: ValueRef, rhs: ValueRef, name: &str) -> (r: Result<NativeCall, TextError>)
        ensures
            *final(self) == *old(self),
            emission(r, old(self).handle(), old(self).position(), (Inst::ICmp { pred: op, lhs, rhs }), seq![], name),
    {
        self.emit(Inst::ICmp { pred: op, lhs, rhs }, Vec::new(), name)
    }

    /// Bitwise and.
    pub fn build_and(&mut self, lhs: ValueRef, rhs: ValueRef, name: &str) -> (r: Result<NativeCall, TextError>)
        ensures
            *final(self) == *old(self),
            emission(r, old(self).handle(), old(self).position(), (Inst::Binary { op: BinOp::And, lhs, rhs }), seq![], name),
    {
        self.emit(Inst::Binary { op: BinOp::And, lhs, rhs }, Vec::new(), name)
    }

    /// Bitwise or.
    pub fn build_or(&mut self, lhs: ValueRef, rhs: ValueRef, name: &str) -> (r: Result<NativeCall, TextError>)
        ensures
            *final(self) == *old(self),
            emission(r, old(self).handle(), old(self).position(), (Inst::Binary { op: BinOp::Or, lhs, rhs }), seq![], name),
    {
        self.emit(Inst::Binary { op: BinOp::Or, lhs, rhs }, Vec::new(), name)
    }

    /// Address of an element of a `ty` at `ptr`, kept in bounds.
    pub fn build_in_bounds_gep(&self, ty: TypeRef, ptr: ValueRef, indices: Vec<ValueRef>, name: &str) -> (r: Result<NativeCall, TextError>)
        requires
            indices@.len() <= u32::MAX,
        ensures
            emission(r, self.handle(), self.position(), (Inst::Gep { ty, ptr, in_bounds: true }), indices@, name),
    {
        self.emit(Inst::Gep { ty, ptr, in_bounds: true }, indices, name)
    }

    /// Branches on `cond`: a terminator.
    pub fn build_cond_br(&self, cond: ValueRef, then_block: BlockRef, else_block: BlockRef) -> (r: NativeCall)
        ensures
            emits(r, self.handle(), self.position(), Inst::CondBr { cond, then_block, else_block }, seq![], seq![]),
    {
        self.emit_unnamed(Inst::CondBr { cond, then_block, else_block })
    }

    /// Branches to `dest`: a terminator.
    pub fn build_br(&self, dest: BlockRef) -> (r: NativeCall)
        ensures
            emits(r, self.handle(), self.position(), Inst::Br { dest }, seq![], seq![]),
    {
        self.emit_unnamed(Inst::Br { dest })
    }

    /// `agg` with field `index` replaced by `elt`.
    pub fn build_insert_value(&self, agg: ValueRef, elt: ValueRef, index: u32, name: &str) -> (r: Result<NativeCall, TextError>)
        ensures
            emission(r, self.handle(), self.position(), (Inst::InsertValue { agg, elt, index }), seq![], name),
    {
        self.emit(Inst::InsertValue { agg, elt, index }, Vec::new(), name)
    }

    /// Field `index` of `agg`.
    pub fn build_extract_value(&self, agg: ValueRef, index: u32, name: &str) -> (r: Result<NativeCall, TextError>)
        ensures
            emission(r, self.handle(), self.position(), (Inst::ExtractValue { agg, index }), seq![], name),
    {
        self.emit(Inst::ExtractValue { agg, index }, Vec::new(), name)
    }

    /// Marks the point unreachable: a terminator.
    pub fn build_unreachable(&self) -> (r: NativeCall)
        ensures
            emits(r, self.handle(), self.position(), Inst::Unreachable, seq![], seq![]),
    {
        self.emit_unnamed(Inst::Unreachable)
    }

    /// Address of an element of a `ty` at `pointer`, unchecked.
    pub fn build_gep(&self, ty: TypeRef, pointer: ValueRef, indices: &[ValueRef], name: &str) -> (r: Result<NativeCall, TextError>)
        requires
            indices@.len() <= u32::MAX,
        ensures
            emission(r, self.handle(), self.position(), (Inst::Gep { ty, ptr: pointer, in_bounds: false }), indices@, name),
    {
        let ops = copy_values(indices);
        self.emit(Inst::Gep { ty, ptr: pointer, in_bounds: false }, ops, name)
    }

    /// Reinterprets the bits of `value` as a `ty`.
    pub fn build_bitcast(&self, value: ValueRef, ty: TypeRef, name: &str) -> (r: Result<NativeCall, TextError>)
        ensures
            emission(r, self.handle(), self.position(), (Inst::Cast { op: CastOp::BitCast, val: value, ty }), seq![], name),
    {
        self.emit(Inst::Cast { op: CastOp::BitCast, val: value, ty }, Vec::new(), name)
    }

    /// The address `value` as an integer `ty`.
    pub fn build_ptr_to_int(&self, value: ValueRef, ty: TypeRef, name: &str) -> (r: Result<NativeCall, TextError>)
        ensures
            emission(r, self.handle(), self.position(), (Inst::Cast { op: CastOp::PtrToInt, val: value, ty }), seq![], name),
    {
        self.emit(Inst::Cast { op: CastOp::PtrToInt, val: value, ty }, Vec::new(), name)
    }

    /// `value` sign-extended to `ty`.
    pub fn build_sext(&self, value: ValueRef, ty: TypeRef, name: &str) -> (r: Result<NativeCall, TextError>)
        ensures
            emission(r, self.handle(), self.position(), (Inst::Cast { op: CastOp::SExt, val: value, ty }), seq![], name),
    {
        self.emit(Inst::Cast { op: CastOp::SExt, val: value, ty }, Vec::new(), name)
    }

    /// `value` zero-extended to `ty`.
    pub fn build_zext(&self, value: ValueRef, ty: TypeRef, name: &str) -> (r: Result<NativeCall, TextError>)
        ensures
            emission(r, self.handle(), self.position(), (Inst::Cast { op: CastOp::ZExt, val: value, ty }), seq![], name),
    {
        self.emit(Inst::Cast { op: CastOp::ZExt, val: value, ty }, Vec::new(), name)
    }
}

/// Moving a builder to the end of `b1` and then to the end of `b2` leaves
/// it emitting through the same native builder at the end of `b2`, and no
/// longer at `b1` where the two blocks differ.
pub proof fn emission_follows_last_position(
    b0: Builder,
    b1: Builder,
    b2: Builder,
    first: BlockRef,
    second: BlockRef,
    c: NativeCall,
    inst: Inst,
    operands: Seq<ValueRef>,
    name: Seq<u8>,
)
    requires
        repositioned(b0, first, b1),
        repositioned(b1, second, b2),
        emits(c, b2.handle(), b2.position(), inst, operands, name),
    ensures
        c matches NativeCall::Build { builder, at, .. } && builder == b0.handle() && at
            == Cursor::AtEnd(second) && (first != second ==> at != Cursor::AtEnd(first)),
{
}

} // verus!
