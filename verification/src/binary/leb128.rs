//! LEB128 unsigned varints: the variable-length integer encoding used for
//! every count, index, and length in the binary format.
//!
//! The grammar is stated once as a spec function over the byte sequence and
//! the executable decoder is proved to return exactly what it says.

use vstd::prelude::*;

use crate::binary::error::DecodeError;

verus! {

/// What an unsigned LEB128 integer of at most `max_bytes` bytes, read from
/// `s` at `pos` and not past `end`, decodes to: the value and the position
/// just after it, or the error. Each byte contributes its low seven bits,
/// least significant group first; a clear high bit ends the encoding.
pub open spec fn spec_leb128(s: Seq<u8>, pos: int, end: int, max_bytes: nat) -> Result<
    (nat, int),
    DecodeError,
>
    decreases max_bytes,
{
    if pos < 0 || pos >= end {
        Err(DecodeError::Truncated)
    } else if max_bytes == 0 {
        Err(DecodeError::MalformedVarint)
    } else {
        let b = s[pos];
        if b < 128 {
            Ok((b as nat, pos + 1))
        } else {
            match spec_leb128(s, pos + 1, end, (max_bytes - 1) as nat) {
                Ok((v, p)) => Ok(((b - 128) as nat + 128 * v, p)),
                Err(e) => Err(e),
            }
        }
    }
}

/// The least value no LEB128 encoding of `max_bytes` bytes can reach:
/// 128 to the power `max_bytes`.
pub open spec fn leb128_bound(max_bytes: nat) -> nat
    decreases max_bytes,
{
    if max_bytes == 0 {
        1
    } else {
        128 * leb128_bound((max_bytes - 1) as nat)
    }
}

/// A successful LEB128 decode consumes at least one byte, stays within
/// `end`, and yields a value below `leb128_bound(max_bytes)`.
pub proof fn lemma_leb128_ok(s: Seq<u8>, pos: int, end: int, max_bytes: nat)
    ensures
        spec_leb128(s, pos, end, max_bytes) matches Ok((v, p)) ==> pos < p <= end && v
            < leb128_bound(max_bytes),
    decreases max_bytes,
{
    if 0 <= pos < end && max_bytes > 0 {
        let bound = leb128_bound((max_bytes - 1) as nat);
        lemma_leb128_bound_le(0, (max_bytes - 1) as nat);
        assert(leb128_bound(0) == 1);
        assert(leb128_bound(max_bytes) == 128 * bound);
        assert(128 * bound >= 128);
        lemma_leb128_ok(s, pos + 1, end, (max_bytes - 1) as nat);
        match spec_leb128(s, pos + 1, end, (max_bytes - 1) as nat) {
            Ok((v, p)) => {
                assert(v < bound);
                assert(128 * v <= 128 * (bound - 1)) by (nonlinear_arith)
                    requires
                        v < bound,
                        bound >= 1,
                ;
                if s[pos] >= 128 {
                    assert((s[pos] - 128) as nat + 128 * v < 128 * bound);
                }
            },
            Err(_) => {},
        }
    }
}

/// `leb128_bound` does not decrease as the width grows.
proof fn lemma_leb128_bound_le(a: nat, b: nat)
    requires
        a <= b,
    ensures
        leb128_bound(a) <= leb128_bound(b),
    decreases b,
{
    if a < b {
        lemma_leb128_bound_le(a, (b - 1) as nat);
        assert(leb128_bound((b - 1) as nat) >= 1) by {
            lemma_leb128_bound_le(0, (b - 1) as nat);
        }
    }
}

/// Reads an unsigned LEB128 integer of at most `max_bytes` bytes, returning
/// exactly what `spec_leb128` says for the same input.
fn decode_leb128(input: &[u8], pos: usize, end: usize, max_bytes: u8) -> (r: Result<
    (u64, usize),
    DecodeError,
>)
    requires
        pos <= end <= input@.len(),
        max_bytes <= 5,
    ensures
        match r {
            Ok((v, p)) => spec_leb128(input@, pos as int, end as int, max_bytes as nat)
                == Ok::<(nat, int), DecodeError>((v as nat, p as int)) && pos < p <= end,
            Err(e) => spec_leb128(input@, pos as int, end as int, max_bytes as nat) == Err::<
                (nat, int),
                DecodeError,
            >(e),
        },
    decreases max_bytes,
{
    if pos >= end {
        return Err(DecodeError::Truncated);
    }
    if max_bytes == 0 {
        return Err(DecodeError::MalformedVarint);
    }
    let b: u8 = *vstd::slice::slice_index_get(input, pos);
    if b < 128 {
        Ok((b as u64, pos + 1))
    } else {
        match decode_leb128(input, pos + 1, end, max_bytes - 1) {
            Ok((v, p)) => {
                proof {
                    lemma_leb128_ok(input@, pos + 1 as int, end as int, (max_bytes - 1) as nat);
                    lemma_leb128_bound_le((max_bytes - 1) as nat, 4);
                    assert(leb128_bound(0) == 1);
                    assert(leb128_bound(1) == 128);
                    assert(leb128_bound(2) == 0x4000);
                    assert(leb128_bound(3) == 0x20_0000);
                    assert(leb128_bound(4) == 0x1000_0000);
                }
                Ok(((b - 128) as u64 + 128 * v, p))
            },
            Err(e) => Err(e),
        }
    }
}

/// What a 32-bit unsigned varint read from `s` at `pos` decodes to: an
/// LEB128 integer of at most five bytes whose value fits in 32 bits.
pub open spec fn spec_varuint32(s: Seq<u8>, pos: int, end: int) -> Result<(u32, int), DecodeError> {
    match spec_leb128(s, pos, end, 5) {
        Ok((v, p)) => if v < 0x1_0000_0000 {
            Ok((v as u32, p))
        } else {
            Err(DecodeError::MalformedVarint)
        },
        Err(e) => Err(e),
    }
}

/// Reads a 32-bit unsigned varint, returning exactly what `spec_varuint32`
/// says for the same input.
pub fn decode_varuint32(input: &[u8], pos: usize, end: usize) -> (r: Result<
    (u32, usize),
    DecodeError,
>)
    requires
        pos <= end <= input@.len(),
    ensures
        match r {
            Ok((v, p)) => spec_varuint32(input@, pos as int, end as int) == Ok::<
                (u32, int),
                DecodeError,
            >((v, p as int)) && pos < p <= end,
            Err(e) => spec_varuint32(input@, pos as int, end as int) == Err::<
                (u32, int),
                DecodeError,
            >(e),
        },
{
    match decode_leb128(input, pos, end, 5) {
        Ok((v, p)) => if v < 0x1_0000_0000 {
            Ok((v as u32, p))
        } else {
            Err(DecodeError::MalformedVarint)
        },
        Err(e) => Err(e),
    }
}

} // verus!
