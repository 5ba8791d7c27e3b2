//! Section codes and the code-section entry: a function body with its
//! local declarations, plus their decoders.

use vstd::prelude::*;

use crate::binary::error::DecodeError;
use crate::binary::instruction::{decode_instructions, spec_instructions, Instruction};
use crate::binary::leb128::{decode_varuint32, spec_varuint32};
use crate::binary::types::{value_type_from_u8, value_type_of, FunctionLocal};

verus! {

/// The kind of a section, as named by the one header byte that precedes
/// each section's payload; `section_code_of` gives the mapping.
#[derive(Debug, Clone, Copy, PartialEq, Eq, Structural)]
pub enum SectionCode {
    Custom,
    Type,
    Import,
    Function,
    Memory,
    Export,
    Code,
    Data,
}

/// The section kind a single header byte stands for, if any: Custom is
/// 0x00, Type 0x01, Import 0x02, Function 0x03, Memory 0x05, Export 0x07,
/// Code 0x0A, and Data 0x0B.
pub open spec fn section_code_of(b: u8) -> Option<SectionCode> {
    if b == 0x00 {
        Some(SectionCode::Custom)
    } else if b == 0x01 {
        Some(SectionCode::Type)
    } else if b == 0x02 {
        Some(SectionCode::Import)
    } else if b == 0x03 {
        Some(SectionCode::Function)
    } else if b == 0x05 {
        Some(SectionCode::Memory)
    } else if b == 0x07 {
        Some(SectionCode::Export)
    } else if b == 0x0A {
        Some(SectionCode::Code)
    } else if b == 0x0B {
        Some(SectionCode::Data)
    } else {
        None
    }
}

impl SectionCode {
    /// Maps one header byte to its section kind, exactly as
    /// `section_code_of` says.
    pub fn from_u8(b: u8) -> (r: Option<SectionCode>)
        ensures
            r == section_code_of(b),
    {
        if b == 0x00 {
            Some(SectionCode::Custom)
        } else if b == 0x01 {
            Some(SectionCode::Type)
        } else if b == 0x02 {
            Some(SectionCode::Import)
        } else if b == 0x03 {
            Some(SectionCode::Function)
        } else if b == 0x05 {
            Some(SectionCode::Memory)
        } else if b == 0x07 {
            Some(SectionCode::Export)
        } else if b == 0x0A {
            Some(SectionCode::Code)
        } else if b == 0x0B {
            Some(SectionCode::Data)
        } else {
            None
        }
    }
}

/// One code-section entry: a function body, as its ordered local-group
/// declarations and its instruction stream, terminated by `End`.
#[derive(Debug, Clone, PartialEq, Eq, Default)]
pub struct Function {
    pub locals: Vec<FunctionLocal>,
    pub code: Vec<Instruction>,
}

/// The mathematical model of a `Function`.
#[verifier::ext_equal]
pub struct FunctionModel {
    pub locals: Seq<FunctionLocal>,
    pub code: Seq<Instruction>,
}

impl View for Function {
    type V = FunctionModel;

    open spec fn view(&self) -> FunctionModel {
        FunctionModel { locals: self.locals@, code: self.code@ }
    }
}

/// What `count` local-group declarations, read from `s` at `pos` and not
/// past `end`, decode to: each one a varint slot count followed by one
/// value-type byte.
pub open spec fn spec_locals(s: Seq<u8>, pos: int, end: int, count: nat) -> Result<
    (Seq<FunctionLocal>, int),
    DecodeError,
>
    decreases count,
{
    if count == 0 {
        Ok((Seq::<FunctionLocal>::empty(), pos))
    } else {
        match spec_varuint32(s, pos, end) {
            Ok((n, p)) => if p < end {
                match value_type_of(s[p]) {
                    Some(vt) => match spec_locals(s, p + 1, end, (count - 1) as nat) {
                        Ok((rest, q)) => Ok(
                            (seq![FunctionLocal { type_count: n, value_type: vt }] + rest, q),
                        ),
                        Err(e) => Err(e),
                    },
                    None => Err(DecodeError::InvalidValueType),
                }
            } else {
                Err(DecodeError::Truncated)
            },
            Err(e) => Err(e),
        }
    }
}

/// Reads `count` local-group declarations, returning exactly what
/// `spec_locals` says for the same input.
pub fn decode_locals(input: &[u8], pos: usize, end: usize, count: u32) -> (r: Result<
    (Vec<FunctionLocal>, usize),
    DecodeError,
>)
    requires
        pos <= end <= input@.len(),
    ensures
        match r {
            Ok((ls, p)) => spec_locals(input@, pos as int, end as int, count as nat) == Ok::<
                (Seq<FunctionLocal>, int),
                DecodeError,
            >((ls@, p as int)) && pos <= p <= end,
            Err(e) => spec_locals(input@, pos as int, end as int, count as nat) == Err::<
                (Seq<FunctionLocal>, int),
                DecodeError,
            >(e),
        },
{
    let mut acc: Vec<FunctionLocal> = Vec::new();
    let mut p: usize = pos;
    let mut i: u32 = 0;
    while i < count
        invariant
            pos <= p <= end <= input@.len(),
            i <= count,
            spec_locals(input@, pos as int, end as int, count as nat) == (
            match spec_locals(input@, p as int, end as int, (count - i) as nat) {
                Ok((rest, q)) => Ok::<(Seq<FunctionLocal>, int), DecodeError>((acc@ + rest, q)),
                Err(e) => Err::<(Seq<FunctionLocal>, int), DecodeError>(e),
            }),
        decreases count - i,
    {
        let (n, p1) = match decode_varuint32(input, p, end) {
            Ok(v) => v,
            Err(e) => {
                return Err(e);
            },
        };
        if p1 >= end {
            return Err(DecodeError::Truncated);
        }
        let b: u8 = *vstd::slice::slice_index_get(input, p1);
        match value_type_from_u8(b) {
            Some(vt) => {
                let local = FunctionLocal { type_count: n, value_type: vt };
                proof {
                    match spec_locals(input@, p1 + 1 as int, end as int, (count - i - 1) as nat) {
                        Ok((rest, q)) => {
                            assert(acc@ + (seq![local] + rest) =~= acc@.push(local) + rest);
                        },
                        Err(_) => {},
                    }
                }
                acc.push(local);
                p = p1 + 1;
                i = i + 1;
            },
            None => {
                return Err(DecodeError::InvalidValueType);
            },
        }
    }
    proof {
        assert(acc@ + Seq::<FunctionLocal>::empty() =~= acc@);
    }
    Ok((acc, p))
}

/// What one code-section entry, read from `s` at `pos` and not past `end`,
/// decodes to: a varint body size, which is authoritative, then within that
/// many bytes a varint local-group count, that many local groups, and an
/// instruction stream closed by `End`. Bytes of the body the grammar does
/// not consume are discarded; the entry ends where its declared size says.
pub open spec fn spec_function_body(s: Seq<u8>, pos: int, end: int) -> Result<
    (FunctionModel, int),
    DecodeError,
> {
    match spec_varuint32(s, pos, end) {
        Ok((size, p)) => if p + size > end {
            Err(DecodeError::Truncated)
        } else {
            match spec_varuint32(s, p, p + size) {
                Ok((lcount, p1)) => match spec_locals(s, p1, p + size, lcount as nat) {
                    Ok((locals, p2)) => match spec_instructions(s, p2, p + size) {
                        Ok((code, _)) => Ok((FunctionModel { locals, code }, p + size)),
                        Err(e) => Err(e),
                    },
                    Err(e) => Err(e),
                },
                Err(e) => Err(e),
            }
        },
        Err(e) => Err(e),
    }
}

/// Reads one code-section entry, returning exactly what
/// `spec_function_body` says for the same input.
pub fn decode_function_body(input: &[u8], pos: usize, end: usize) -> (r: Result<
    (Function, usize),
    DecodeError,
>)
    requires
        pos <= end <= input@.len(),
    ensures
        match r {
            Ok((f, p)) => spec_function_body(input@, pos as int, end as int) == Ok::<
                (FunctionModel, int),
                DecodeError,
            >((f@, p as int)) && pos < p <= end,
            Err(e) => spec_function_body(input@, pos as int, end as int) == Err::<
                (FunctionModel, int),
                DecodeError,
            >(e),
        },
{
    let (size, p) = match decode_varuint32(input, pos, end) {
        Ok(v) => v,
        Err(e) => {
            return Err(e);
        },
    };
    if size as usize > end - p {
        return Err(DecodeError::Truncated);
    }
    let bend: usize = p + size as usize;
    let (lcount, p1) = match decode_varuint32(input, p, bend) {
        Ok(v) => v,
        Err(e) => {
            return Err(e);
        },
    };
    let (locals, p2) = match decode_locals(input, p1, bend, lcount) {
        Ok(v) => v,
        Err(e) => {
            return Err(e);
        },
    };
    let (code, _p3) = match decode_instructions(input, p2, bend) {
        Ok(v) => v,
        Err(e) => {
            return Err(e);
        },
    };
    Ok((Function { locals, code }, bend))
}

} // verus!
