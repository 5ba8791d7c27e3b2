//! A WebAssembly binary-format front end: a decoder that turns a raw module
//! byte stream into a typed in-memory `Module`, and a `Store` that links the
//! declared function signatures to their bodies, yielding executable function
//! instances together with a type-checked runtime value model.

pub mod binary;
pub mod execution;
