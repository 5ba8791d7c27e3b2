//! Decoding failures. Any failure aborts the whole decode; nothing is
//! retried or partially recovered.

use vstd::prelude::*;

verus! {

/// Why a byte stream was rejected by the module decoder.
#[derive(Debug, Clone, Copy, PartialEq, Eq, Structural)]
pub enum DecodeError {
    /// The stream does not begin with the WebAssembly magic bytes.
    NotWasm,
    /// The stream ended before a complete item could be read, or a declared
    /// length exceeds the bytes that remain.
    Truncated,
    /// A variable-length integer ran past its maximum width or encoded a
    /// value outside the 32-bit range.
    MalformedVarint,
    /// A section-code byte outside the kinds this decoder understands.
    UnknownSection,
    /// An opcode byte outside the instruction table.
    UnknownOpcode,
    /// A byte outside the value-type vocabulary.
    InvalidValueType,
    /// A function type that does not begin with the function form byte.
    InvalidFuncType,
}

} // verus!
