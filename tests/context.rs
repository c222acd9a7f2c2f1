use llvm_wrap::call::NativeCall;
use llvm_wrap::context::Context;
use llvm_wrap::handle::{Function, TypeRef, ValueRef};
use llvm_wrap::text::TextError;

#[test]
fn context_create_and_dispose() {
    assert_eq!(Context::create_call(), NativeCall::ContextCreate);
    let c = Context::new(40);
    assert_eq!(c.ptr(), 40);
    assert_eq!(c.dispose(), NativeCall::ContextDispose { ctx: 40 });
}

#[test]
fn create_builder_names_context() {
    let c = Context::new(7);
    assert_eq!(c.create_builder(), NativeCall::CreateBuilder { ctx: 7 });
}

#[test]
fn module_named_m() {
    let c = Context::new(7);
    assert_eq!(
        c.module_create_with_name("m"),
        Ok(NativeCall::ModuleCreate { ctx: 7, name: vec![b'm', 0] })
    );
}

#[test]
fn module_name_with_nul() {
    let c = Context::new(7);
    assert_eq!(c.module_create_with_name("m\0x"), Err(TextError::InvalidName));
}

#[test]
fn void_type_call() {
    let c = Context::new(3);
    assert_eq!(c.void_type(), NativeCall::VoidType { ctx: 3 });
}

#[test]
fn append_block_keeps_function() {
    let c = Context::new(3);
    let mut f = Function { ptr: ValueRef { addr: 99 } };
    assert_eq!(
        c.append_basic_block(&mut f, "entry"),
        Ok(NativeCall::AppendBasicBlock {
            ctx: 3,
            func: ValueRef { addr: 99 },
            name: b"entry\0".to_vec(),
        })
    );
    assert_eq!(f, Function { ptr: ValueRef { addr: 99 } });
    assert_eq!(c.append_basic_block(&mut f, "\0"), Err(TextError::InvalidName));
}

#[test]
fn constants_by_capability() {
    let c = Context::new(5);
    assert_eq!(
        c.cons(5i32),
        NativeCall::ConstInt { ctx: 5, width: 32, bits: 5, sign_extend: true }
    );
    assert_eq!(
        c.cons(-1i8),
        NativeCall::ConstInt { ctx: 5, width: 8, bits: u64::MAX, sign_extend: true }
    );
    assert_eq!(
        c.cons(200u8),
        NativeCall::ConstInt { ctx: 5, width: 8, bits: 200, sign_extend: false }
    );
    assert_eq!(
        c.cons(true),
        NativeCall::ConstInt { ctx: 5, width: 1, bits: 1, sign_extend: false }
    );
}

#[test]
fn constant_twice_is_same_call() {
    let c = Context::new(5);
    assert_eq!(c.cons(5i32), c.cons(5i32));
}

#[test]
fn types_by_capability() {
    let c = Context::new(5);
    assert_eq!(c.cons_ty::<i32>(), NativeCall::IntType { ctx: 5, width: 32 });
    assert_eq!(c.cons_ty::<u64>(), NativeCall::IntType { ctx: 5, width: 64 });
    assert_eq!(c.cons_ty::<bool>(), NativeCall::IntType { ctx: 5, width: 1 });
    assert_eq!(c.cons_ty::<()>(), NativeCall::VoidType { ctx: 5 });
}

#[test]
fn string_constant_by_length() {
    let c = Context::new(5);
    assert_eq!(
        c.cons_str("hi"),
        Ok(NativeCall::ConstString { ctx: 5, text: vec![b'h', b'i'], null_terminate: false })
    );
    assert_eq!(
        c.cons_str(""),
        Ok(NativeCall::ConstString { ctx: 5, text: vec![], null_terminate: false })
    );
    assert_eq!(c.cons_str("h\0i"), Err(TextError::InvalidText));
}

#[test]
fn struct_of_two_i32_keeps_order() {
    let c = Context::new(5);
    let a = TypeRef { addr: 11 };
    let b = TypeRef { addr: 12 };
    assert_eq!(
        c.struct_type(vec![a, b], false),
        NativeCall::StructType { ctx: 5, elements: vec![a, b], count: 2, packed: false }
    );
    assert_eq!(
        c.struct_type(vec![], true),
        NativeCall::StructType { ctx: 5, elements: vec![], count: 0, packed: true }
    );
}

#[test]
fn named_struct() {
    let c = Context::new(5);
    assert_eq!(
        c.struct_type_named("pair"),
        Ok(NativeCall::StructCreateNamed { ctx: 5, name: b"pair\0".to_vec() })
    );
    assert_eq!(c.struct_type_named("pa\0ir"), Err(TextError::InvalidName));
}

#[test]
fn string_constant_holds_exactly_its_bytes() {
    let c = Context::new(5);
    match c.cons_str("abc") {
        Ok(NativeCall::ConstString { text, null_terminate, .. }) => {
            assert_eq!(text, vec![0x61, 0x62, 0x63]);
            assert!(!null_terminate);
        }
        other => panic!("unexpected {:?}", other),
    }
}
