//! The module aggregate and the top-level decoder: magic and version, then
//! a loop over section headers until the input is exhausted.

use vstd::prelude::*;
use vstd::string::StringExecFns;

use crate::binary::error::DecodeError;
use crate::binary::leb128::{decode_varuint32, spec_varuint32};
use crate::binary::section::{
    decode_function_body, section_code_of, spec_function_body, Function, FunctionModel,
    SectionCode,
};
use crate::binary::types::{decode_func_type, spec_func_type, FuncType, FuncTypeModel};

verus! {

/// A decoded module: the magic bytes and version of its preamble, and the
/// recognized sections, each present at most once in a well-formed stream.
/// A later section of the same kind overwrites an earlier one.
#[derive(Debug, PartialEq, Eq)]
pub struct Module {
    pub magic: String,
    pub version: u32,
    pub type_section: Option<Vec<FuncType>>,
    pub function_section: Option<Vec<u32>>,
    pub code_section: Option<Vec<Function>>,
}

/// The mathematical model of a `Module`.
#[verifier::ext_equal]
pub struct ModuleModel {
    pub magic: Seq<char>,
    pub version: u32,
    pub type_section: Option<Seq<FuncTypeModel>>,
    pub function_section: Option<Seq<u32>>,
    pub code_section: Option<Seq<FunctionModel>>,
}

/// The models of a sequence of function types, in order.
pub open spec fn func_types_view(v: Seq<FuncType>) -> Seq<FuncTypeModel> {
    v.map_values(|ft: FuncType| ft@)
}

/// The models of a sequence of function bodies, in order.
pub open spec fn functions_view(v: Seq<Function>) -> Seq<FunctionModel> {
    v.map_values(|f: Function| f@)
}

impl View for Module {
    type V = ModuleModel;

    open spec fn view(&self) -> ModuleModel {
        ModuleModel {
            magic: self.magic@,
            version: self.version,
            type_section: match self.type_section {
                Some(v) => Some(func_types_view(v@)),
                None => None,
            },
            function_section: match self.function_section {
                Some(v) => Some(v@),
                None => None,
            },
            code_section: match self.code_section {
                Some(v) => Some(functions_view(v@)),
                None => None,
            },
        }
    }
}

/// The model of the module every decode starts from: the magic, version 1,
/// and no sections.
pub open spec fn spec_default_module() -> ModuleModel {
    ModuleModel {
        magic: "\0asm"@,
        version: 1,
        type_section: None,
        function_section: None,
        code_section: None,
    }
}

impl Default for Module {
    /// The minimal module: magic and version 1, all sections absent.
    fn default() -> (r: Module)
        ensures
            r@ == spec_default_module(),
    {
        let r = Module {
            magic: String::from_str("\0asm"),
            version: 1,
            type_section: None,
            function_section: None,
            code_section: None,
        };
        proof {
            assert(r@ =~= spec_default_module());
        }
        r
    }
}

/// The four magic bytes every module begins with: `\0asm`.
pub open spec fn spec_magic() -> Seq<u8> {
    seq![0x00u8, 0x61u8, 0x73u8, 0x6Du8]
}

/// The 32-bit little-endian integer held by the four bytes of `s` at `pos`.
pub open spec fn spec_u32_le(s: Seq<u8>, pos: int) -> u32
    recommends
        0 <= pos,
        pos + 4 <= s.len(),
{
    (s[pos] + s[pos + 1] * 0x100 + s[pos + 2] * 0x1_0000 + s[pos + 3] * 0x100_0000) as u32
}

/// What a type section's payload, `s` from `pos` up to `end`, decodes to:
/// a varint count and that many function types. Payload bytes past the
/// grammar are discarded; the declared section length is authoritative.
pub open spec fn spec_func_types(s: Seq<u8>, pos: int, end: int, count: nat) -> Result<
    (Seq<FuncTypeModel>, int),
    DecodeError,
>
    decreases count,
{
    if count == 0 {
        Ok((Seq::<FuncTypeModel>::empty(), pos))
    } else {
        match spec_func_type(s, pos, end) {
            Ok((ft, p)) => match spec_func_types(s, p, end, (count - 1) as nat) {
                Ok((rest, q)) => Ok((seq![ft] + rest, q)),
                Err(e) => Err(e),
            },
            Err(e) => Err(e),
        }
    }
}

/// See `spec_func_types`: the whole type-section payload.
pub open spec fn spec_type_section(s: Seq<u8>, pos: int, end: int) -> Result<
    Seq<FuncTypeModel>,
    DecodeError,
> {
    match spec_varuint32(s, pos, end) {
        Ok((count, p)) => match spec_func_types(s, p, end, count as nat) {
            Ok((types, _)) => Ok(types),
            Err(e) => Err(e),
        },
        Err(e) => Err(e),
    }
}

/// What a function section's payload decodes to: a varint count and that
/// many varint type indices, one per defined function.
pub open spec fn spec_indices(s: Seq<u8>, pos: int, end: int, count: nat) -> Result<
    (Seq<u32>, int),
    DecodeError,
>
    decreases count,
{
    if count == 0 {
        Ok((Seq::<u32>::empty(), pos))
    } else {
        match spec_varuint32(s, pos, end) {
            Ok((idx, p)) => match spec_indices(s, p, end, (count - 1) as nat) {
                Ok((rest, q)) => Ok((seq![idx] + rest, q)),
                Err(e) => Err(e),
            },
            Err(e) => Err(e),
        }
    }
}

/// See `spec_indices`: the whole function-section payload.
pub open spec fn spec_function_section(s: Seq<u8>, pos: int, end: int) -> Result<
    Seq<u32>,
    DecodeError,
> {
    match spec_varuint32(s, pos, end) {
        Ok((count, p)) => match spec_indices(s, p, end, count as nat) {
            Ok((idxs, _)) => Ok(idxs),
            Err(e) => Err(e),
        },
        Err(e) => Err(e),
    }
}

/// What a code section's payload decodes to: a varint count and that many
/// length-prefixed function bodies.
pub open spec fn spec_function_bodies(s: Seq<u8>, pos: int, end: int, count: nat) -> Result<
    (Seq<FunctionModel>, int),
    DecodeError,
>
    decreases count,
{
    if count == 0 {
        Ok((Seq::<FunctionModel>::empty(), pos))
    } else {
        match spec_function_body(s, pos, end) {
            Ok((f, p)) => match spec_function_bodies(s, p, end, (count - 1) as nat) {
                Ok((rest, q)) => Ok((seq![f] + rest, q)),
                Err(e) => Err(e),
            },
            Err(e) => Err(e),
        }
    }
}

/// See `spec_function_bodies`: the whole code-section payload.
pub open spec fn spec_code_section(s: Seq<u8>, pos: int, end: int) -> Result<
    Seq<FunctionModel>,
    DecodeError,
> {
    match spec_varuint32(s, pos, end) {
        Ok((count, p)) => match spec_function_bodies(s, p, end, count as nat) {
            Ok((funcs, _)) => Ok(funcs),
            Err(e) => Err(e),
        },
        Err(e) => Err(e),
    }
}

/// What the section loop, starting at `pos` over the module `m` decoded so
/// far, produces: one header and payload per step until the input is
/// exhausted. A header is one section-code byte and a varint payload
/// length; the length is checked against the bytes that remain, and a kind
/// outside the three this decoder understands is a fatal `UnknownSection`.
/// The inner position guards only keep the recursion visibly decreasing: a
/// successful header read always lands past `pos`, so their `Truncated`
/// arms are never taken.
pub open spec fn spec_sections(s: Seq<u8>, pos: int, m: ModuleModel) -> Result<
    ModuleModel,
    DecodeError,
>
    decreases s.len() - pos,
{
    if pos >= s.len() {
        Ok(m)
    } else if pos < 0 {
        Err(DecodeError::Truncated)
    } else {
        match spec_varuint32(s, pos + 1, s.len() as int) {
            Ok((size, p)) => match section_code_of(s[pos]) {
                Some(SectionCode::Type) => if p + size > s.len() {
                    Err(DecodeError::Truncated)
                } else {
                    match spec_type_section(s, p, p + size) {
                        Ok(types) => if pos < p + size <= s.len() {
                            spec_sections(
                                s,
                                p + size,
                                ModuleModel { type_section: Some(types), ..m },
                            )
                        } else {
                            Err(DecodeError::Truncated)
                        },
                        Err(e) => Err(e),
                    }
                },
                Some(SectionCode::Function) => if p + size > s.len() {
                    Err(DecodeError::Truncated)
                } else {
                    match spec_function_section(s, p, p + size) {
                        Ok(idxs) => if pos < p + size <= s.len() {
                            spec_sections(
                                s,
                                p + size,
                                ModuleModel { function_section: Some(idxs), ..m },
                            )
                        } else {
                            Err(DecodeError::Truncated)
                        },
                        Err(e) => Err(e),
                    }
                },
                Some(SectionCode::Code) => if p + size > s.len() {
                    Err(DecodeError::Truncated)
                } else {
                    match spec_code_section(s, p, p + size) {
                        Ok(funcs) => if pos < p + size <= s.len() {
                            spec_sections(
                                s,
                                p + size,
                                ModuleModel { code_section: Some(funcs), ..m },
                            )
                        } else {
                            Err(DecodeError::Truncated)
                        },
                        Err(e) => Err(e),
                    }
                },
                _ => Err(DecodeError::UnknownSection),
            },
            Err(e) => Err(e),
        }
    }
}

/// What a whole byte stream decodes to: the `\0asm` magic, else `NotWasm`;
/// the four-byte little-endian version, else `Truncated`; then the section
/// loop over the rest.
pub open spec fn spec_decode(s: Seq<u8>) -> Result<ModuleModel, DecodeError> {
    if s.len() < 4 || s.subrange(0, 4) != spec_magic() {
        Err(DecodeError::NotWasm)
    } else if s.len() < 8 {
        Err(DecodeError::Truncated)
    } else {
        spec_sections(
            s,
            8,
            ModuleModel {
                magic: "\0asm"@,
                version: spec_u32_le(s, 4),
                type_section: None,
                function_section: None,
                code_section: None,
            },
        )
    }
}

/// A stream with a correct magic whose first section header declares a
/// payload length exceeding the bytes that remain fails with `Truncated`.
/// The declared length is checked against the remaining input before any
/// payload byte is touched; the decoder, being verified, reads no byte out
/// of bounds and cannot panic on any input.
pub proof fn lemma_oversized_section_truncated(s: Seq<u8>, size: u32, p: int)
    requires
        s.len() > 8,
        s.subrange(0, 4) == spec_magic(),
        s[8] == 0x01 || s[8] == 0x03 || s[8] == 0x0A,
        spec_varuint32(s, 9, s.len() as int) == Ok::<(u32, int), DecodeError>((size, p)),
        p + size > s.len(),
    ensures
        spec_decode(s) == Err::<ModuleModel, DecodeError>(DecodeError::Truncated),
{
}

/// A stream with a correct preamble whose first section-code byte is not
/// one of the kinds the decoder understands fails deterministically with
/// `UnknownSection`: no section is ever silently skipped. The header's
/// length varint is read before the code byte is judged, as the header
/// parse comes first.
pub proof fn lemma_unknown_section(s: Seq<u8>, size: u32, p: int)
    requires
        s.len() > 8,
        s.subrange(0, 4) == spec_magic(),
        s[8] != 0x01 && s[8] != 0x03 && s[8] != 0x0A,
        spec_varuint32(s, 9, s.len() as int) == Ok::<(u32, int), DecodeError>((size, p)),
    ensures
        spec_decode(s) == Err::<ModuleModel, DecodeError>(DecodeError::UnknownSection),
{
}

/// Reads a type section's payload, returning exactly what
/// `spec_type_section` says for the same input.
fn decode_type_section(input: &[u8], pos: usize, end: usize) -> (r: Result<
    Vec<FuncType>,
    DecodeError,
>)
    requires
        pos <= end <= input@.len(),
    ensures
        match r {
            Ok(types) => spec_type_section(input@, pos as int, end as int) == Ok::<
                Seq<FuncTypeModel>,
                DecodeError,
            >(func_types_view(types@)),
            Err(e) => spec_type_section(input@, pos as int, end as int) == Err::<
                Seq<FuncTypeModel>,
                DecodeError,
            >(e),
        },
{
    let (count, mut p) = match decode_varuint32(input, pos, end) {
        Ok(v) => v,
        Err(e) => {
            return Err(e);
        },
    };
    let ghost start: int = p as int;
    let mut acc: Vec<FuncType> = Vec::new();
    let mut i: u32 = 0;
    while i < count
        invariant
            pos <= p <= end <= input@.len(),
            i <= count,
            spec_varuint32(input@, pos as int, end as int) == Ok::<(u32, int), DecodeError>(
                (count, start),
            ),
            spec_func_types(input@, start, end as int, count as nat) == (
            match spec_func_types(input@, p as int, end as int, (count - i) as nat) {
                Ok((rest, q)) => Ok::<(Seq<FuncTypeModel>, int), DecodeError>(
                    (func_types_view(acc@) + rest, q),
                ),
                Err(e) => Err::<(Seq<FuncTypeModel>, int), DecodeError>(e),
            }),
        decreases count - i,
    {
        match decode_func_type(input, p, end) {
            Ok((ft, p2)) => {
                proof {
                    match spec_func_types(input@, p2 as int, end as int, (count - i - 1) as nat) {
                        Ok((rest, q)) => {
                            assert(func_types_view(acc@.push(ft)) =~= func_types_view(acc@).push(
                                ft@,
                            ));
                            assert(func_types_view(acc@) + (seq![ft@] + rest) =~= func_types_view(
                                acc@,
                            ).push(ft@) + rest);
                        },
                        Err(_) => {},
                    }
                }
                acc.push(ft);
                p = p2;
                i = i + 1;
            },
            Err(e) => {
                return Err(e);
            },
        }
    }
    proof {
        assert(func_types_view(acc@) + Seq::<FuncTypeModel>::empty() =~= func_types_view(acc@));
    }
    Ok(acc)
}

/// Reads a function section's payload, returning exactly what
/// `spec_function_section` says for the same input.
fn decode_function_section(input: &[u8], pos: usize, end: usize) -> (r: Result<
    Vec<u32>,
    DecodeError,
>)
    requires
        pos <= end <= input@.len(),
    ensures
        match r {
            Ok(idxs) => spec_function_section(input@, pos as int, end as int) == Ok::<
                Seq<u32>,
                DecodeError,
            >(idxs@),
            Err(e) => spec_function_section(input@, pos as int, end as int) == Err::<
                Seq<u32>,
                DecodeError,
            >(e),
        },
{
    let (count, mut p) = match decode_varuint32(input, pos, end) {
        Ok(v) => v,
        Err(e) => {
            return Err(e);
        },
    };
    let ghost start: int = p as int;
    let mut acc: Vec<u32> = Vec::new();
    let mut i: u32 = 0;
    while i < count
        invariant
            pos <= p <= end <= input@.len(),
            i <= count,
            spec_varuint32(input@, pos as int, end as int) == Ok::<(u32, int), DecodeError>(
                (count, start),
            ),
            spec_indices(input@, start, end as int, count as nat) == (
            match spec_indices(input@, p as int, end as int, (count - i) as nat) {
                Ok((rest, q)) => Ok::<(Seq<u32>, int), DecodeError>((acc@ + rest, q)),
                Err(e) => Err::<(Seq<u32>, int), DecodeError>(e),
            }),
        decreases count - i,
    {
        match decode_varuint32(input, p, end) {
            Ok((idx, p2)) => {
                proof {
                    match spec_indices(input@, p2 as int, end as int, (count - i - 1) as nat) {
                        Ok((rest, q)) => {
                            assert(acc@ + (seq![idx] + rest) =~= acc@.push(idx) + rest);
                        },
                        Err(_) => {},
                    }
                }
                acc.push(idx);
                p = p2;
                i = i + 1;
            },
            Err(e) => {
                return Err(e);
            },
        }
    }
    proof {
        assert(acc@ + Seq::<u32>::empty() =~= acc@);
    }
    Ok(acc)
}

/// Reads a code section's payload, returning exactly what
/// `spec_code_section` says for the same input.
fn decode_code_section(input: &[u8], pos: usize, end: usize) -> (r: Result<
    Vec<Function>,
    DecodeError,
>)
    requires
        pos <= end <= input@.len(),
    ensures
        match r {
            Ok(funcs) => spec_code_section(input@, pos as int, end as int) == Ok::<
                Seq<FunctionModel>,
                DecodeError,
            >(functions_view(funcs@)),
            Err(e) => spec_code_section(input@, pos as int, end as int) == Err::<
                Seq<FunctionModel>,
                DecodeError,
            >(e),
        },
{
    let (count, mut p) = match decode_varuint32(input, pos, end) {
        Ok(v) => v,
        Err(e) => {
            return Err(e);
        },
    };
    let ghost start: int = p as int;
    let mut acc: Vec<Function> = Vec::new();
    let mut i: u32 = 0;
    while i < count
        invariant
            pos <= p <= end <= input@.len(),
            i <= count,
            spec_varuint32(input@, pos as int, end as int) == Ok::<(u32, int), DecodeError>(
                (count, start),
            ),
            spec_function_bodies(input@, start, end as int, count as nat) == (
            match spec_function_bodies(input@, p as int, end as int, (count - i) as nat) {
                Ok((rest, q)) => Ok::<(Seq<FunctionModel>, int), DecodeError>(
                    (functions_view(acc@) + rest, q),
                ),
                Err(e) => Err::<(Seq<FunctionModel>, int), DecodeError>(e),
            }),
        decreases count - i,
    {
        match decode_function_body(input, p, end) {
            Ok((f, p2)) => {
                proof {
                    match spec_function_bodies(
                        input@,
                        p2 as int,
                        end as int,
                        (count - i - 1) as nat,
                    ) {
                        Ok((rest, q)) => {
                            assert(functions_view(acc@.push(f)) =~= functions_view(acc@).push(f@));
                            assert(functions_view(acc@) + (seq![f@] + rest) =~= functions_view(acc@)
                                .push(f@) + rest);
                        },
                        Err(_) => {},
                    }
                }
                acc.push(f);
                p = p2;
                i = i + 1;
            },
            Err(e) => {
                return Err(e);
            },
        }
    }
    proof {
        assert(functions_view(acc@) + Seq::<FunctionModel>::empty() =~= functions_view(acc@));
    }
    Ok(acc)
}

/// Reads the four bytes at `pos` as a little-endian 32-bit integer,
/// exactly as `spec_u32_le` says.
fn decode_u32_le(input: &[u8], pos: usize) -> (r: u32)
    requires
        pos + 4 <= input@.len(),
    ensures
        r == spec_u32_le(input@, pos as int),
{
    let len: usize = input.len();
    proof {
        assert(pos + 4 <= len);
    }
    let b0: u8 = *vstd::slice::slice_index_get(input, pos);
    let b1: u8 = *vstd::slice::slice_index_get(input, pos + 1);
    let b2: u8 = *vstd::slice::slice_index_get(input, pos + 2);
    let b3: u8 = *vstd::slice::slice_index_get(input, pos + 3);
    b0 as u32 + (b1 as u32) * 0x100 + (b2 as u32) * 0x1_0000 + (b3 as u32) * 0x100_0000
}

/// Reads one section header: the section-code byte, then the varint
/// payload length. A code byte outside the section table is
/// `UnknownSection`; the length is read before the byte is judged, so a
/// bad varint is reported first.
fn decode_section_header(input: &[u8], pos: usize) -> (r: Result<
    (SectionCode, u32, usize),
    DecodeError,
>)
    requires
        pos < input@.len(),
    ensures
        match r {
            Ok((code, size, p)) => section_code_of(input@[pos as int]) == Some(code)
                && spec_varuint32(input@, pos + 1 as int, input@.len() as int) == Ok::<
                (u32, int),
                DecodeError,
            >((size, p as int)) && pos + 1 < p <= input@.len(),
            Err(e) => spec_varuint32(input@, pos + 1 as int, input@.len() as int) == Err::<
                (u32, int),
                DecodeError,
            >(e) || (e == DecodeError::UnknownSection && section_code_of(input@[pos as int]) is None
                && spec_varuint32(input@, pos + 1 as int, input@.len() as int) is Ok),
        },
{
    let n: usize = input.len();
    let b: u8 = *vstd::slice::slice_index_get(input, pos);
    let (size, p) = match decode_varuint32(input, pos + 1, n) {
        Ok(v) => v,
        Err(e) => {
            return Err(e);
        },
    };
    match SectionCode::from_u8(b) {
        Some(code) => Ok((code, size, p)),
        None => Err(DecodeError::UnknownSection),
    }
}

impl Module {
    /// Decodes a whole byte stream into a module, returning exactly what
    /// `spec_decode` says for it: the value on success, and the error that
    /// identifies the failing primitive otherwise. The decoder never reads
    /// out of bounds and never panics.
    pub fn new(input: &[u8]) -> (r: Result<Module, DecodeError>)
        ensures
            match r {
                Ok(m) => spec_decode(input@) == Ok::<ModuleModel, DecodeError>(m@),
                Err(e) => spec_decode(input@) == Err::<ModuleModel, DecodeError>(e),
            },
    {
        Module::decode(input)
    }

    /// The body of `Module::new`: preamble, then the section loop.
    fn decode(input: &[u8]) -> (r: Result<Module, DecodeError>)
        ensures
            match r {
                Ok(m) => spec_decode(input@) == Ok::<ModuleModel, DecodeError>(m@),
                Err(e) => spec_decode(input@) == Err::<ModuleModel, DecodeError>(e),
            },
    {
        let n: usize = input.len();
        if n < 4 {
            return Err(DecodeError::NotWasm);
        }
        let m0: u8 = *vstd::slice::slice_index_get(input, 0);
        let m1: u8 = *vstd::slice::slice_index_get(input, 1);
        let m2: u8 = *vstd::slice::slice_index_get(input, 2);
        let m3: u8 = *vstd::slice::slice_index_get(input, 3);
        if !(m0 == 0x00 && m1 == 0x61 && m2 == 0x73 && m3 == 0x6D) {
            proof {
                if input@.subrange(0, 4) == spec_magic() {
                    assert(input@.subrange(0, 4)[0] == 0x00u8);
                    assert(input@.subrange(0, 4)[1] == 0x61u8);
                    assert(input@.subrange(0, 4)[2] == 0x73u8);
                    assert(input@.subrange(0, 4)[3] == 0x6Du8);
                }
            }
            return Err(DecodeError::NotWasm);
        }
        proof {
            assert(input@.subrange(0, 4) =~= spec_magic());
        }
        if n < 8 {
            return Err(DecodeError::Truncated);
        }
        let version: u32 = decode_u32_le(input, 4);
        let mut module = Module {
            magic: String::from_str("\0asm"),
            version,
            type_section: None,
            function_section: None,
            code_section: None,
        };
        let mut p: usize = 8;
        proof {
            assert(module@ =~= ModuleModel {
                magic: "\0asm"@,
                version: spec_u32_le(input@, 4),
                type_section: None,
                function_section: None,
                code_section: None,
            });
        }
        while p < n
            invariant
                8 <= p <= n == input@.len(),
                spec_decode(input@) == spec_sections(input@, p as int, module@),
            decreases input@.len() - p,
        {
            let (code, size, p2) = match decode_section_header(input, p) {
                Ok(v) => v,
                Err(e) => {
                    return Err(e);
                },
            };
            match code {
                SectionCode::Type => {
                    if size as usize > n - p2 {
                        return Err(DecodeError::Truncated);
                    }
                    let pend: usize = p2 + size as usize;
                    match decode_type_section(input, p2, pend) {
                        Ok(types) => {
                            let ghost before = module@;
                            module.type_section = Some(types);
                            proof {
                                assert(module@ =~= ModuleModel {
                                    type_section: Some(func_types_view(types@)),
                                    ..before
                                });
                            }
                            p = pend;
                        },
                        Err(e) => {
                            return Err(e);
                        },
                    }
                },
                SectionCode::Function => {
                    if size as usize > n - p2 {
                        return Err(DecodeError::Truncated);
                    }
                    let pend: usize = p2 + size as usize;
                    match decode_function_section(input, p2, pend) {
                        Ok(idxs) => {
                            let ghost before = module@;
                            module.function_section = Some(idxs);
                            proof {
                                assert(module@ =~= ModuleModel {
                                    function_section: Some(idxs@),
                                    ..before
                                });
                            }
                            p = pend;
                        },
                        Err(e) => {
                            return Err(e);
                        },
                    }
                },
                SectionCode::Code => {
                    if size as usize > n - p2 {
                        return Err(DecodeError::Truncated);
                    }
                    let pend: usize = p2 + size as usize;
                    match decode_code_section(input, p2, pend) {
                        Ok(funcs) => {
                            let ghost before = module@;
                            module.code_section = Some(funcs);
                            proof {
                                assert(module@ =~= ModuleModel {
                                    code_section: Some(functions_view(funcs@)),
                                    ..before
                                });
                            }
                            p = pend;
                        },
                        Err(e) => {
                            return Err(e);
                        },
                    }
                },
                _ => {
                    return Err(DecodeError::UnknownSection);
                },
            }
        }
        Ok(module)
    }
}

} // verus!

