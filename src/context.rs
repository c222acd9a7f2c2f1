//! The context: sole owner of one native context handle, and the factory of
//! builders, modules, types and constants scoped to it.
use vstd::prelude::*;
use vstd::string::StringSliceAdditionalSpecFns;
use crate::call::{
    appends_block, creates_module, makes_named_struct, makes_string, makes_struct, NativeCall,
};
use crate::handle::{Function, TypeRef};
use crate::text::{c_name, nul_free, terminated, text_bytes, TextError};
use crate::value::{ContextType, IntoConstValue};

verus! {

/// Owns one native context handle. It is neither `Clone` nor `Copy`, and
/// `dispose` consumes it, so each `Context` value gives at most one release
/// call. That makes the native handle released once only where the host hands
/// each handle to `new` once and runs each returned call once.
///
/// Everything made in a context (types, constants, builders, modules) must
/// not be used after the context is disposed; handles of another context must
/// not be passed to it. Neither is checked here.
#[derive(Debug)]
pub struct Context {
    ptr: usize,
}

impl Context {
    /// The native handle this context owns.
    pub closed spec fn handle(&self) -> usize {
        self.ptr
    }

    /// The call that creates a native context; its result is handed to `new`.
    pub fn create_call() -> (r: NativeCall)
        ensures
            r is ContextCreate,
    {
        NativeCall::ContextCreate
    }

    /// Takes ownership of the native context `ptr`.
    pub fn new(ptr: usize) -> (r: Context)
        ensures
            r.handle() == ptr,
    {
        Context { ptr }
    }

    pub fn ptr(&self) -> (r: usize)
        ensures
            r == self.handle(),
    {
        self.ptr
    }

    /// Releases the native context: the one call that disposes it.
    pub fn dispose(self) -> (r: NativeCall)
        ensures
            r matches NativeCall::ContextDispose { ctx } && ctx == self.handle(),
    {
        NativeCall::ContextDispose { ctx: self.ptr }
    }

    /// The call that creates a builder in this context; its result is handed
    /// to `Builder::new`.
    pub fn create_builder(&self) -> (r: NativeCall)
        ensures
            r matches NativeCall::CreateBuilder { ctx } && ctx == self.handle(),
    {
        NativeCall::CreateBuilder { ctx: self.ptr }
    }

    /// The call that creates a module named `name`.
    pub fn module_create_with_name(&self, name: &str) -> (r: Result<NativeCall, TextError>)
        ensures
            r is Ok <==> nul_free(name.spec_bytes()),
            r is Ok ==> creates_module(r->Ok_0, self.handle(), terminated(name.spec_bytes())),
            r is Err ==> r->Err_0 == TextError::InvalidName,
    {
        match c_name(name) {
            Ok(n) => Ok(NativeCall::ModuleCreate { ctx: self.ptr, name: n }),
            Err(e) => Err(e),
        }
    }

    /// The call that gives this context's void type.
    pub fn void_type(&self) -> (r: NativeCall)
        ensures
            r matches NativeCall::VoidType { ctx } && ctx == self.handle(),
    {
        NativeCall::VoidType { ctx: self.ptr }
    }

    /// The call that appends a block named `name` to `func`, which must have
    /// been made in this context.
    pub fn append_basic_block(&self, func: &mut Function, name: &str) -> (r: Result<
        NativeCall,
        TextError,
    >)
        ensures
            *final(func) == *old(func),
            r is Ok <==> nul_free(name.spec_bytes()),
            r is Ok ==> appends_block(
                r->Ok_0,
                self.handle(),
                old(func).ptr,
                terminated(name.spec_bytes()),
            ),
            r is Err ==> r->Err_0 == TextError::InvalidName,
    {
        match c_name(name) {
            Ok(n) => Ok(NativeCall::AppendBasicBlock { ctx: self.ptr, func: func.ptr, name: n }),
            Err(e) => Err(e),
        }
    }

    /// The call that makes a constant of `val`, decided by `val` itself.
    pub fn cons<T: IntoConstValue>(&self, val: T) -> (r: NativeCall)
        ensures
            r == val.const_call(self.handle()),
    {
        val.gen_const(self)
    }

    /// The call that makes a string constant of exactly the bytes of `s`,
    /// counted by length and not null-terminated, or `InvalidText` where `s`
    /// holds a null byte.
    pub fn cons_str(&self, s: &str) -> (r: Result<NativeCall, TextError>)
        ensures
            r is Ok <==> nul_free(s.spec_bytes()),
            r is Ok ==> makes_string(r->Ok_0, self.handle(), s.spec_bytes()),
            r is Err ==> r->Err_0 == TextError::InvalidText,
    {
        match text_bytes(s) {
            Some(t) => Ok(NativeCall::ConstString { ctx: self.ptr, text: t, null_terminate: false }),
            None => Err(TextError::InvalidText),
        }
    }

    /// The call that gives the type that `T` stands for.
    pub fn cons_ty<T: ContextType>(&self) -> (r: NativeCall)
        ensures
            r == T::type_call(self.handle()),
    {
        T::get_type_in_context(self)
    }

    /// The call that makes the anonymous struct of `element_types`, in order;
    /// `packed` drops the padding between fields.
    pub fn struct_type(&self, element_types: Vec<TypeRef>, packed: bool) -> (r: NativeCall)
        requires
            element_types@.len() <= u32::MAX,
        ensures
            makes_struct(r, self.handle(), element_types@, packed),
    {
        let count = element_types.len() as u32;
        NativeCall::StructType { ctx: self.ptr, elements: element_types, count, packed }
    }

    /// The call that registers an opaque struct type named `name`.
    pub fn struct_type_named(&self, name: &str) -> (r: Result<NativeCall, TextError>)
        ensures
            r is Ok <==> nul_free(name.spec_bytes()),
            r is Ok ==> makes_named_struct(r->Ok_0, self.handle(), terminated(name.spec_bytes())),
            r is Err ==> r->Err_0 == TextError::InvalidName,
    {
        match c_name(name) {
            Ok(n) => Ok(NativeCall::StructCreateNamed { ctx: self.ptr, name: n }),
            Err(e) => Err(e),
        }
    }
}

} // verus!
