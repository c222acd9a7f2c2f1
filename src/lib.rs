//! Ownership-checked construction of IR through a native builder library.
//!
//! The library decides every native call: it validates text, marshals
//! arguments, tracks the builder's cursor and gives one disposal call per owner.
//! The native calls themselves are described by `call::NativeCall` values,
//! which the host program performs.
pub mod builder;
pub mod call;
pub mod context;
pub mod handle;
pub mod text;
pub mod value;
