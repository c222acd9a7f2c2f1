use std::collections::HashMap;

use llvm_wrap::builder::Builder;
use llvm_wrap::call::{BinOp, Inst, NativeCall};
use llvm_wrap::context::Context;
use llvm_wrap::handle::{BlockRef, Function, ValueRef};

/// A stand-in for the native layer that counts lifetimes and records which
/// instructions land in which block.
#[derive(Default)]
struct Recorder {
    next: usize,
    contexts_created: usize,
    contexts_disposed: Vec<usize>,
    builders_disposed: Vec<usize>,
    cursor: HashMap<usize, BlockRef>,
    blocks: HashMap<usize, Vec<Inst>>,
    block_order: Vec<usize>,
    modules: Vec<Vec<u8>>,
}

impl Recorder {
    fn fresh(&mut self) -> usize {
        self.next += 1;
        self.next
    }

    fn run(&mut self, call: NativeCall) -> usize {
        match call {
            NativeCall::ContextCreate => {
                self.contexts_created += 1;
                self.fresh()
            }
            NativeCall::ContextDispose { ctx } => {
                assert!(!self.contexts_disposed.contains(&ctx));
                self.contexts_disposed.push(ctx);
                0
            }
            NativeCall::DisposeBuilder { builder } => {
                assert!(!self.builders_disposed.contains(&builder));
                self.builders_disposed.push(builder);
                0
            }
            NativeCall::ModuleCreate { name, .. } => {
                self.modules.push(name);
                self.fresh()
            }
            NativeCall::AppendBasicBlock { .. } => {
                let b = self.fresh();
                self.blocks.insert(b, vec![]);
                self.block_order.push(b);
                b
            }
            NativeCall::PositionAtEnd { builder, block } => {
                self.cursor.insert(builder, block);
                0
            }
            NativeCall::Build { builder, inst, .. } => {
                let block = self.cursor[&builder];
                self.blocks.get_mut(&block.addr).unwrap().push(inst);
                self.fresh()
            }
            _ => self.fresh(),
        }
    }
}

#[test]
fn function_returning_sum() {
    let mut native = Recorder::default();
    let ctx = Context::new(native.run(Context::create_call()));
    let _module = native.run(ctx.module_create_with_name("m").unwrap());
    let mut func = Function { ptr: ValueRef { addr: native.fresh() } };
    let entry = BlockRef { addr: native.run(ctx.append_basic_block(&mut func, "entry").unwrap()) };
    let mut b = Builder::new(native.run(ctx.create_builder()));
    native.run(b.position_at_end(entry));
    let one = ValueRef { addr: native.run(ctx.cons(1i32)) };
    let two = ValueRef { addr: native.run(ctx.cons(2i32)) };
    let sum = ValueRef { addr: native.run(b.build_add(one, two, "sum").unwrap()) };
    native.run(b.build_ret(sum));
    let builder_handle = b.ptr();
    let ctx_handle = ctx.ptr();
    native.run(b.dispose());
    native.run(ctx.dispose());

    assert_eq!(native.modules, vec![b"m\0".to_vec()]);
    assert_eq!(native.block_order, vec![entry.addr]);
    assert_eq!(
        native.blocks[&entry.addr],
        vec![
            Inst::Binary { op: BinOp::Add, lhs: one, rhs: two },
            Inst::Ret { val: sum },
        ]
    );
    assert_eq!(native.builders_disposed, vec![builder_handle]);
    assert_eq!(native.contexts_created, 1);
    assert_eq!(native.contexts_disposed, vec![ctx_handle]);
}

#[test]
fn each_context_disposed_once() {
    let mut native = Recorder::default();
    let a = Context::new(native.run(Context::create_call()));
    let b = Context::new(native.run(Context::create_call()));
    let (ha, hb) = (a.ptr(), b.ptr());
    native.run(b.dispose());
    native.run(a.dispose());
    assert_eq!(native.contexts_created, 2);
    assert_eq!(native.contexts_disposed, vec![hb, ha]);
}

#[test]
fn emission_lands_in_last_positioned_block() {
    let mut native = Recorder::default();
    let ctx = Context::new(native.run(Context::create_call()));
    let mut func = Function { ptr: ValueRef { addr: native.fresh() } };
    let b1 = BlockRef { addr: native.run(ctx.append_basic_block(&mut func, "b1").unwrap()) };
    let b2 = BlockRef { addr: native.run(ctx.append_basic_block(&mut func, "b2").unwrap()) };
    let mut b = Builder::new(native.run(ctx.create_builder()));
    native.run(b.position_at_end(b1));
    native.run(b.build_unreachable());
    native.run(b.position_at_end(b1));
    native.run(b.position_at_end(b2));
    native.run(b.build_ret_void());
    assert_eq!(native.blocks[&b1.addr], vec![Inst::Unreachable]);
    assert_eq!(native.blocks[&b2.addr], vec![Inst::RetVoid]);
    native.run(b.dispose());
    native.run(ctx.dispose());
}

#[test]
fn refused_name_makes_no_call() {
    let mut native = Recorder::default();
    let ctx = Context::new(native.run(Context::create_call()));
    let mut func = Function { ptr: ValueRef { addr: 77 } };
    assert!(ctx.module_create_with_name("a\0").is_err());
    assert!(ctx.append_basic_block(&mut func, "a\0").is_err());
    assert!(native.modules.is_empty());
    assert!(native.block_order.is_empty());
    native.run(ctx.dispose());
}
