//! Instructions and the decoder for a function body's instruction stream.

use vstd::prelude::*;

use crate::binary::error::DecodeError;
use crate::binary::leb128::{decode_varuint32, spec_varuint32};
use crate::binary::opcode::{opcode_of, Opcode};

verus! {

/// One instruction. The operand-bearing variants carry the varint index
/// that follows their opcode byte in the encoding.
#[derive(Debug, Clone, Copy, PartialEq, Eq, Structural)]
pub enum Instruction {
    /// Closes a function body's instruction stream.
    End,
    /// Pushes the local with the given positional index.
    LocalGet(u32),
    /// Adds the two 32-bit integers on top of the operand stack.
    I32Add,
    /// Calls the function with the given index.
    Call(u32),
}

/// What an instruction stream, read from `s` at `pos` and not past `end`,
/// decodes to: instructions in order up to and including the `End` opcode
/// that closes the stream. An operand-bearing opcode consumes one varint
/// index immediately after its byte; a byte outside the opcode table is a
/// fatal error, never a silent skip.
pub open spec fn spec_instructions(s: Seq<u8>, pos: int, end: int) -> Result<
    (Seq<Instruction>, int),
    DecodeError,
>
    decreases end - pos,
{
    if pos < 0 || pos >= end {
        Err(DecodeError::Truncated)
    } else {
        match opcode_of(s[pos]) {
            Some(Opcode::End) => Ok((seq![Instruction::End], pos + 1)),
            Some(Opcode::I32Add) => match spec_instructions(s, pos + 1, end) {
                Ok((rest, p)) => Ok((seq![Instruction::I32Add] + rest, p)),
                Err(e) => Err(e),
            },
            Some(Opcode::LocalGet) => match spec_varuint32(s, pos + 1, end) {
                Ok((idx, p)) => if pos + 1 < p <= end {
                    match spec_instructions(s, p, end) {
                        Ok((rest, q)) => Ok((seq![Instruction::LocalGet(idx)] + rest, q)),
                        Err(e) => Err(e),
                    }
                } else {
                    Err(DecodeError::Truncated)
                },
                Err(e) => Err(e),
            },
            Some(Opcode::Call) => match spec_varuint32(s, pos + 1, end) {
                Ok((idx, p)) => if pos + 1 < p <= end {
                    match spec_instructions(s, p, end) {
                        Ok((rest, q)) => Ok((seq![Instruction::Call(idx)] + rest, q)),
                        Err(e) => Err(e),
                    }
                } else {
                    Err(DecodeError::Truncated)
                },
                Err(e) => Err(e),
            },
            None => Err(DecodeError::UnknownOpcode),
        }
    }
}

/// Reads an instruction stream to its closing `End`, returning exactly what
/// `spec_instructions` says for the same input.
pub fn decode_instructions(input: &[u8], pos: usize, end: usize) -> (r: Result<
    (Vec<Instruction>, usize),
    DecodeError,
>)
    requires
        pos <= end <= input@.len(),
    ensures
        match r {
            Ok((ins, p)) => spec_instructions(input@, pos as int, end as int) == Ok::<
                (Seq<Instruction>, int),
                DecodeError,
            >((ins@, p as int)) && pos < p <= end,
            Err(e) => spec_instructions(input@, pos as int, end as int) == Err::<
                (Seq<Instruction>, int),
                DecodeError,
            >(e),
        },
{
    let mut acc: Vec<Instruction> = Vec::new();
    let mut p: usize = pos;
    loop
        invariant
            pos <= p <= end <= input@.len(),
            spec_instructions(input@, pos as int, end as int) == (
            match spec_instructions(input@, p as int, end as int) {
                Ok((rest, q)) => Ok::<(Seq<Instruction>, int), DecodeError>((acc@ + rest, q)),
                Err(e) => Err::<(Seq<Instruction>, int), DecodeError>(e),
            }),
        decreases end - p,
    {
        if p >= end {
            return Err(DecodeError::Truncated);
        }
        let b: u8 = *vstd::slice::slice_index_get(input, p);
        match Opcode::from_u8(b) {
            Some(Opcode::End) => {
                proof {
                    assert(acc@ + seq![Instruction::End] =~= acc@.push(Instruction::End));
                }
                acc.push(Instruction::End);
                return Ok((acc, p + 1));
            },
            Some(Opcode::I32Add) => {
                proof {
                    match spec_instructions(input@, p + 1 as int, end as int) {
                        Ok((rest, q)) => {
                            assert(acc@ + (seq![Instruction::I32Add] + rest) =~= acc@.push(
                                Instruction::I32Add,
                            ) + rest);
                        },
                        Err(_) => {},
                    }
                }
                acc.push(Instruction::I32Add);
                p = p + 1;
            },
            Some(Opcode::LocalGet) => {
                match decode_varuint32(input, p + 1, end) {
                    Ok((idx, p2)) => {
                        proof {
                            match spec_instructions(input@, p2 as int, end as int) {
                                Ok((rest, q)) => {
                                    assert(acc@ + (seq![Instruction::LocalGet(idx)] + rest)
                                        =~= acc@.push(Instruction::LocalGet(idx)) + rest);
                                },
                                Err(_) => {},
                            }
                        }
                        acc.push(Instruction::LocalGet(idx));
                        p = p2;
                    },
                    Err(e) => {
                        return Err(e);
                    },
                }
            },
            Some(Opcode::Call) => {
                match decode_varuint32(input, p + 1, end) {
                    Ok((idx, p2)) => {
                        proof {
                            match spec_instructions(input@, p2 as int, end as int) {
                                Ok((rest, q)) => {
                                    assert(acc@ + (seq![Instruction::Call(idx)] + rest) =~= acc@.push(
                                        Instruction::Call(idx),
                                    ) + rest);
                                },
                                Err(_) => {},
                            }
                        }
                        acc.push(Instruction::Call(idx));
                        p = p2;
                    },
                    Err(e) => {
                        return Err(e);
                    },
                }
            },
            None => {
                return Err(DecodeError::UnknownOpcode);
            },
        }
    }
}

} // verus!
