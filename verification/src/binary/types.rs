//! Value types, function types, and local declarations, with their decoders.

use vstd::prelude::*;

use crate::binary::error::DecodeError;
use crate::binary::leb128::{decode_varuint32, spec_varuint32};

verus! {

/// A value type of the engine: the type of a local, parameter, result, or
/// operand-stack slot.
#[derive(Debug, Clone, Copy, PartialEq, Eq, Structural)]
pub enum ValueType {
    I32,
    I64,
}

/// A function signature: ordered parameter types and ordered result types,
/// compared structurally.
#[derive(Debug, Clone, PartialEq, Eq)]
pub struct FuncType {
    pub params: Vec<ValueType>,
    pub results: Vec<ValueType>,
}

/// The mathematical model of a `FuncType`.
#[verifier::ext_equal]
pub struct FuncTypeModel {
    pub params: Seq<ValueType>,
    pub results: Seq<ValueType>,
}

impl View for FuncType {
    type V = FuncTypeModel;

    open spec fn view(&self) -> FuncTypeModel {
        FuncTypeModel { params: self.params@, results: self.results@ }
    }
}

impl Default for FuncType {
    /// The empty signature: no parameters and no results.
    fn default() -> (r: FuncType)
        ensures
            r@ == (FuncTypeModel { params: Seq::<ValueType>::empty(), results: Seq::<
                ValueType,
            >::empty() }),
    {
        let r = FuncType { params: Vec::new(), results: Vec::new() };
        proof {
            assert(r@ =~= FuncTypeModel {
                params: Seq::<ValueType>::empty(),
                results: Seq::<ValueType>::empty(),
            });
        }
        r
    }
}

/// A run-length-encoded group of identically-typed locals: `type_count`
/// slots of type `value_type`, expanded positionally at instantiation.
#[derive(Debug, Clone, Copy, PartialEq, Eq, Structural)]
pub struct FunctionLocal {
    pub type_count: u32,
    pub value_type: ValueType,
}

/// The value type a single byte stands for, if any.
pub open spec fn value_type_of(b: u8) -> Option<ValueType> {
    if b == 0x7F {
        Some(ValueType::I32)
    } else if b == 0x7E {
        Some(ValueType::I64)
    } else {
        None
    }
}

/// Maps one byte to its value type, exactly as `value_type_of` says.
pub fn value_type_from_u8(b: u8) -> (r: Option<ValueType>)
    ensures
        r == value_type_of(b),
{
    if b == 0x7F {
        Some(ValueType::I32)
    } else if b == 0x7E {
        Some(ValueType::I64)
    } else {
        None
    }
}

/// What `count` consecutive value-type bytes, read from `s` at `pos` and not
/// past `end`, decode to.
pub open spec fn spec_value_types(s: Seq<u8>, pos: int, end: int, count: nat) -> Result<
    (Seq<ValueType>, int),
    DecodeError,
>
    decreases count,
{
    if count == 0 {
        Ok((Seq::<ValueType>::empty(), pos))
    } else if pos < 0 || pos >= end {
        Err(DecodeError::Truncated)
    } else {
        match value_type_of(s[pos]) {
            Some(vt) => match spec_value_types(s, pos + 1, end, (count - 1) as nat) {
                Ok((rest, p)) => Ok((seq![vt] + rest, p)),
                Err(e) => Err(e),
            },
            None => Err(DecodeError::InvalidValueType),
        }
    }
}

/// Reads `count` value-type bytes, returning exactly what
/// `spec_value_types` says for the same input.
pub fn decode_value_types(input: &[u8], pos: usize, end: usize, count: u32) -> (r: Result<
    (Vec<ValueType>, usize),
    DecodeError,
>)
    requires
        pos <= end <= input@.len(),
    ensures
        match r {
            Ok((vts, p)) => spec_value_types(input@, pos as int, end as int, count as nat) == Ok::<
                (Seq<ValueType>, int),
                DecodeError,
            >((vts@, p as int)) && pos <= p <= end,
            Err(e) => spec_value_types(input@, pos as int, end as int, count as nat) == Err::<
                (Seq<ValueType>, int),
                DecodeError,
            >(e),
        },
{
    let mut acc: Vec<ValueType> = Vec::new();
    let mut p: usize = pos;
    let mut i: u32 = 0;
    while i < count
        invariant
            pos <= p <= end <= input@.len(),
            i <= count,
            spec_value_types(input@, pos as int, end as int, count as nat) == (
            match spec_value_types(input@, p as int, end as int, (count - i) as nat) {
                Ok((rest, q)) => Ok::<(Seq<ValueType>, int), DecodeError>((acc@ + rest, q)),
                Err(e) => Err::<(Seq<ValueType>, int), DecodeError>(e),
            }),
        decreases count - i,
    {
        if p >= end {
            return Err(DecodeError::Truncated);
        }
        let b: u8 = *vstd::slice::slice_index_get(input, p);
        match value_type_from_u8(b) {
            Some(vt) => {
                proof {
                    match spec_value_types(input@, p + 1 as int, end as int, (count - i - 1) as nat) {
                        Ok((rest, q)) => {
                            assert(acc@ + (seq![vt] + rest) =~= acc@.push(vt) + rest);
                        },
                        Err(_) => {},
                    }
                }
                acc.push(vt);
                p = p + 1;
                i = i + 1;
            },
            None => {
                return Err(DecodeError::InvalidValueType);
            },
        }
    }
    proof {
        assert(acc@ + Seq::<ValueType>::empty() =~= acc@);
    }
    Ok((acc, p))
}

/// What one function type, read from `s` at `pos` and not past `end`,
/// decodes to: the function form byte, a parameter count with that many
/// value-type bytes, then a result count with that many value-type bytes.
pub open spec fn spec_func_type(s: Seq<u8>, pos: int, end: int) -> Result<
    (FuncTypeModel, int),
    DecodeError,
> {
    if pos < 0 || pos >= end {
        Err(DecodeError::Truncated)
    } else if s[pos] != 0x60 {
        Err(DecodeError::InvalidFuncType)
    } else {
        match spec_varuint32(s, pos + 1, end) {
            Ok((pcount, p1)) => match spec_value_types(s, p1, end, pcount as nat) {
                Ok((params, p2)) => match spec_varuint32(s, p2, end) {
                    Ok((rcount, p3)) => match spec_value_types(s, p3, end, rcount as nat) {
                        Ok((results, p4)) => Ok((FuncTypeModel { params, results }, p4)),
                        Err(e) => Err(e),
                    },
                    Err(e) => Err(e),
                },
                Err(e) => Err(e),
            },
            Err(e) => Err(e),
        }
    }
}

/// Reads one function type, returning exactly what `spec_func_type` says
/// for the same input.
pub fn decode_func_type(input: &[u8], pos: usize, end: usize) -> (r: Result<
    (FuncType, usize),
    DecodeError,
>)
    requires
        pos <= end <= input@.len(),
    ensures
        match r {
            Ok((ft, p)) => spec_func_type(input@, pos as int, end as int) == Ok::<
                (FuncTypeModel, int),
                DecodeError,
            >((ft@, p as int)) && pos < p <= end,
            Err(e) => spec_func_type(input@, pos as int, end as int) == Err::<
                (FuncTypeModel, int),
                DecodeError,
            >(e),
        },
{
    if pos >= end {
        return Err(DecodeError::Truncated);
    }
    let form: u8 = *vstd::slice::slice_index_get(input, pos);
    if form != 0x60 {
        return Err(DecodeError::InvalidFuncType);
    }
    let (pcount, p1) = match decode_varuint32(input, pos + 1, end) {
        Ok(v) => v,
        Err(e) => {
            return Err(e);
        },
    };
    let (params, p2) = match decode_value_types(input, p1, end, pcount) {
        Ok(v) => v,
        Err(e) => {
            return Err(e);
        },
    };
    let (rcount, p3) = match decode_varuint32(input, p2, end) {
        Ok(v) => v,
        Err(e) => {
            return Err(e);
        },
    };
    let (results, p4) = match decode_value_types(input, p3, end, rcount) {
        Ok(v) => v,
        Err(e) => {
            return Err(e);
        },
    };
    Ok((FuncType { params, results }, p4))
}

} // verus!
