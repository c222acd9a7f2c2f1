//! Handles of native objects, held as the addresses the native layer gave.
//!
//! A handle owns nothing: its object lives as long as the context (or module)
//! that made it.
use vstd::prelude::*;

verus! {

/// A value: a constant, an instruction's result, a function.
#[derive(Clone, Copy, Debug, PartialEq, Eq, Structural)]
pub struct ValueRef {
    pub addr: usize,
}

/// A type.
#[derive(Clone, Copy, Debug, PartialEq, Eq, Structural)]
pub struct TypeRef {
    pub addr: usize,
}

/// A basic block of a function.
#[derive(Clone, Copy, Debug, PartialEq, Eq, Structural)]
pub struct BlockRef {
    pub addr: usize,
}

/// A function, which is also a value.
#[derive(Clone, Copy, Debug, PartialEq, Eq, Structural)]
pub struct Function {
    pub ptr: ValueRef,
}

/// A module.
#[derive(Clone, Copy, Debug, PartialEq, Eq, Structural)]
pub struct Module {
    pub ptr: usize,
}

} // verus!
