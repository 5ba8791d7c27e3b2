//! The instruction opcodes and their fixed one-byte encodings.

use vstd::prelude::*;

verus! {

/// An instruction opcode. Each variant stands for one fixed byte of the
/// encoding; `opcode_of` gives the mapping.
#[derive(Debug, Clone, Copy, PartialEq, Eq, Structural)]
pub enum Opcode {
    End,
    LocalGet,
    I32Add,
    Call,
}

/// The opcode a single byte stands for, if any: End is 0x0B, LocalGet is
/// 0x20, I32Add is 0x6A, and Call is 0x10.
pub open spec fn opcode_of(b: u8) -> Option<Opcode> {
    if b == 0x0B {
        Some(Opcode::End)
    } else if b == 0x20 {
        Some(Opcode::LocalGet)
    } else if b == 0x6A {
        Some(Opcode::I32Add)
    } else if b == 0x10 {
        Some(Opcode::Call)
    } else {
        None
    }
}

impl Opcode {
    /// Maps one byte to its opcode, exactly as `opcode_of` says.
    pub fn from_u8(b: u8) -> (r: Option<Opcode>)
        ensures
            r == opcode_of(b),
    {
        if b == 0x0B {
            Some(Opcode::End)
        } else if b == 0x20 {
            Some(Opcode::LocalGet)
        } else if b == 0x6A {
            Some(Opcode::I32Add)
        } else if b == 0x10 {
            Some(Opcode::Call)
        } else {
            None
        }
    }
}

} // verus!
