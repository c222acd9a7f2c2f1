//! What a value or a type marker makes of itself in a context.
//!
//! A new kind of constant or type is added by implementing one of these
//! traits; the context only forwards to it.
use vstd::prelude::*;
use crate::call::NativeCall;
use crate::context::Context;

verus! {

/// A host value that knows the native call making a constant of itself.
pub trait IntoConstValue {
    /// The call that makes this value a constant in the context `ctx`.
    spec fn const_call(&self, ctx: usize) -> NativeCall;

    fn gen_const(&self, ctx: &Context) -> (r: NativeCall)
        ensures
            r == self.const_call(ctx.handle()),
    ;
}

/// A type marker that knows the native call giving its type.
pub trait ContextType {
    /// The call that gives this type in the context `ctx`.
    spec fn type_call(ctx: usize) -> NativeCall;

    fn get_type_in_context(ctx: &Context) -> (r: NativeCall)
        ensures
            r == Self::type_call(ctx.handle()),
    ;
}

impl IntoConstValue for bool {
    open spec fn const_call(&self, ctx: usize) -> NativeCall {
        NativeCall::ConstInt { ctx, width: 1, bits: if *self { 1 } else { 0 }, sign_extend: false }
    }

    fn gen_const(&self, ctx: &Context) -> (r: NativeCall) {
        let bits: u64 = if *self { 1 } else { 0 };
        NativeCall::ConstInt { ctx: ctx.ptr(), width: 1, bits, sign_extend: false }
    }
}

impl IntoConstValue for i8 {
    open spec fn const_call(&self, ctx: usize) -> NativeCall {
        NativeCall::ConstInt { ctx, width: 8, bits: *self as u64, sign_extend: true }
    }

    fn gen_const(&self, ctx: &Context) -> (r: NativeCall) {
        let bits: u64 = *self as u64;
        NativeCall::ConstInt { ctx: ctx.ptr(), width: 8, bits, sign_extend: true }
    }
}

impl IntoConstValue for i16 {
    open spec fn const_call(&self, ctx: usize) -> NativeCall {
        NativeCall::ConstInt { ctx, width: 16, bits: *self as u64, sign_extend: true }
    }

    fn gen_const(&self, ctx: &Context) -> (r: NativeCall) {
        let bits: u64 = *self as u64;
        NativeCall::ConstInt { ctx: ctx.ptr(), width: 16, bits, sign_extend: true }
    }
}

impl IntoConstValue for i32 {
    open spec fn const_call(&self, ctx: usize) -> NativeCall {
        NativeCall::ConstInt { ctx, width: 32, bits: *self as u64, sign_extend: true }
    }

    fn gen_const(&self, ctx: &Context) -> (r: NativeCall) {
        let bits: u64 = *self as u64;
        NativeCall::ConstInt { ctx: ctx.ptr(), width: 32, bits, sign_extend: true }
    }
}

impl IntoConstValue for i64 {
    open spec fn const_call(&self, ctx: usize) -> NativeCall {
        NativeCall::ConstInt { ctx, width: 64, bits: *self as u64, sign_extend: true }
    }

    fn gen_const(&self, ctx: &Context) -> (r: NativeCall) {
        let bits: u64 = *self as u64;
        NativeCall::ConstInt { ctx: ctx.ptr(), width: 64, bits, sign_extend: true }
    }
}

impl IntoConstValue for u8 {
    open spec fn const_call(&self, ctx: usize) -> NativeCall {
        NativeCall::ConstInt { ctx, width: 8, bits: *self as u64, sign_extend: false }
    }

    fn gen_const(&self, ctx: &Context) -> (r: NativeCall) {
        let bits: u64 = *self as u64;
        NativeCall::ConstInt { ctx: ctx.ptr(), width: 8, bits, sign_extend: false }
    }
}

impl IntoConstValue for u16 {
    open spec fn const_call(&self, ctx: usize) -> NativeCall {
        NativeCall::ConstInt { ctx, width: 16, bits: *self as u64, sign_extend: false }
    }

    fn gen_const(&self, ctx: &Context) -> (r: NativeCall) {
        let bits: u64 = *self as u64;
        NativeCall::ConstInt { ctx: ctx.ptr(), width: 16, bits, sign_extend: false }
    }
}

impl IntoConstValue for u32 {
    open spec fn const_call(&self, ctx: usize) -> NativeCall {
        NativeCall::ConstInt { ctx, width: 32, bits: *self as u64, sign_extend: false }
    }

    fn gen_const(&self, ctx: &Context) -> (r: NativeCall) {
        let bits: u64 = *self as u64;
        NativeCall::ConstInt { ctx: ctx.ptr(), width: 32, bits, sign_extend: false }
    }
}

impl IntoConstValue for u64 {
    open spec fn const_call(&self, ctx: usize) -> NativeCall {
        NativeCall::ConstInt { ctx, width: 64, bits: *self as u64, sign_extend: false }
    }

    fn gen_const(&self, ctx: &Context) -> (r: NativeCall) {
        let bits: u64 = *self as u64;
        NativeCall::ConstInt { ctx: ctx.ptr(), width: 64, bits, sign_extend: false }
    }
}

impl ContextType for bool {
    open spec fn type_call(ctx: usize) -> NativeCall {
        NativeCall::IntType { ctx, width: 1 }
    }

    fn get_type_in_context(ctx: &Context) -> (r: NativeCall) {
        NativeCall::IntType { ctx: ctx.ptr(), width: 1 }
    }
}

impl ContextType for i8 {
    open spec fn type_call(ctx: usize) -> NativeCall {
        NativeCall::IntType { ctx, width: 8 }
    }

    fn get_type_in_context(ctx: &Context) -> (r: NativeCall) {
        NativeCall::IntType { ctx: ctx.ptr(), width: 8 }
    }
}

impl ContextType for i16 {
    open spec fn type_call(ctx: usize) -> NativeCall {
        NativeCall::IntType { ctx, width: 16 }
    }

    fn get_type_in_context(ctx: &Context) -> (r: NativeCall) {
        NativeCall::IntType { ctx: ctx.ptr(), width: 16 }
    }
}

impl ContextType for i32 {
    open spec fn type_call(ctx: usize) -> NativeCall {
        NativeCall::IntType { ctx, width: 32 }
    }

    fn get_type_in_context(ctx: &Context) -> (r: NativeCall) {
        NativeCall::IntType { ctx: ctx.ptr(), width: 32 }
    }
}

impl ContextType for i64 {
    open spec fn type_call(ctx: usize) -> NativeCall {
        NativeCall::IntType { ctx, width: 64 }
    }

    fn get_type_in_context(ctx: &Context) -> (r: NativeCall) {
        NativeCall::IntType { ctx: ctx.ptr(), width: 64 }
    }
}

impl ContextType for u8 {
    open spec fn type_call(ctx: usize) -> NativeCall {
        NativeCall::IntType { ctx, width: 8 }
    }

    fn get_type_in_context(ctx: &Context) -> (r: NativeCall) {
        NativeCall::IntType { ctx: ctx.ptr(), width: 8 }
    }
}

impl ContextType for u16 {
    open spec fn type_call(ctx: usize) -> NativeCall {
        NativeCall::IntType { ctx, width: 16 }
    }

    fn get_type_in_context(ctx: &Context) -> (r: NativeCall) {
        NativeCall::IntType { ctx: ctx.ptr(), width: 16 }
    }
}

impl ContextType for u32 {
    open spec fn type_call(ctx: usize) -> NativeCall {
        NativeCall::IntType { ctx, width: 32 }
    }

    fn get_type_in_context(ctx: &Context) -> (r: NativeCall) {
        NativeCall::IntType { ctx: ctx.ptr(), width: 32 }
    }
}

impl ContextType for u64 {
    open spec fn type_call(ctx: usize) -> NativeCall {
        NativeCall::IntType { ctx, width: 64 }
    }

    fn get_type_in_context(ctx: &Context) -> (r: NativeCall) {
        NativeCall::IntType { ctx: ctx.ptr(), width: 64 }
    }
}

/// The unit type stands for the native void type.
impl ContextType for () {
    open spec fn type_call(ctx: usize) -> NativeCall {
        NativeCall::VoidType { ctx }
    }

    fn get_type_in_context(ctx: &Context) -> (r: NativeCall) {
        ctx.void_type()
    }
}

/// Making a constant of an `i32` is pure: the call depends on the context and
/// the value alone, and its bits, read back at 32 bits, are the value.
pub proof fn constant_is_pure(ctx: usize, v: i32, w: i32)
    ensures
        v == w ==> v.const_call(ctx) == w.const_call(ctx),
        v.const_call(ctx) matches NativeCall::ConstInt { ctx: x, width, bits, sign_extend }
            && x == ctx && width == 32 && bits as i32 == v && sign_extend,
{
    assert((v as u64) as i32 == v) by (bit_vector);
}

} // verus!
