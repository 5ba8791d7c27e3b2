use minwasm::binary::error::DecodeError;
use minwasm::binary::instruction::Instruction;
use minwasm::binary::module::Module;
use minwasm::binary::opcode::Opcode;
use minwasm::binary::section::{Function, SectionCode};
use minwasm::binary::types::{FuncType, FunctionLocal, ValueType};

#[test]
fn decode_simplest_module() {
    // Generate wasm binary with only preamble present
    let wasm = wat::parse_str("(module)").unwrap();
    // Decode binary and generate Module structure
    let module = Module::new(&wasm).unwrap();
    // Compare whether the generated Module structure is as expected
    assert_eq!(module, Module::default());
}

#[test]
fn decode_simplest_func() {
    let wasm = wat::parse_str("(module (func))").unwrap();
    let module = Module::new(&wasm).unwrap();
    assert_eq!(
        module,
        Module {
            type_section: Some(vec![FuncType::default()]),
            function_section: Some(vec![0]),
            code_section: Some(vec![Function {
                locals: vec![],
                code: vec![Instruction::End],
            }]),
            ..Default::default()
        }
    );
}

#[test]
fn decode_minimal_raw_bytes() {
    let wasm = [0x00, 0x61, 0x73, 0x6D, 0x01, 0x00, 0x00, 0x00];
    let module = Module::new(&wasm).unwrap();
    assert_eq!(module, Module::default());
}

#[test]
fn decode_simplest_func_raw_bytes() {
    let wasm = [
        0x00, 0x61, 0x73, 0x6D, 0x01, 0x00, 0x00, 0x00, // preamble
        0x01, 0x04, 0x01, 0x60, 0x00, 0x00, // type section: one () -> () type
        0x03, 0x02, 0x01, 0x00, // function section: one entry, type index 0
        0x0A, 0x04, 0x01, 0x02, 0x00, 0x0B, // code section: one empty body
    ];
    let module = Module::new(&wasm).unwrap();
    assert_eq!(
        module,
        Module {
            type_section: Some(vec![FuncType::default()]),
            function_section: Some(vec![0]),
            code_section: Some(vec![Function {
                locals: vec![],
                code: vec![Instruction::End],
            }]),
            ..Default::default()
        }
    );
}

#[test]
fn decode_params_results_and_instructions() {
    let wasm = wat::parse_str(
        "(module (func (param i32 i32) (result i32) (local.get 0) (local.get 1) i32.add))",
    )
    .unwrap();
    let module = Module::new(&wasm).unwrap();
    assert_eq!(
        module.type_section,
        Some(vec![FuncType {
            params: vec![ValueType::I32, ValueType::I32],
            results: vec![ValueType::I32],
        }])
    );
    assert_eq!(module.function_section, Some(vec![0]));
    assert_eq!(
        module.code_section,
        Some(vec![Function {
            locals: vec![],
            code: vec![
                Instruction::LocalGet(0),
                Instruction::LocalGet(1),
                Instruction::I32Add,
                Instruction::End,
            ],
        }])
    );
}

#[test]
fn decode_locals_groups() {
    let wasm = [
        0x00, 0x61, 0x73, 0x6D, 0x01, 0x00, 0x00, 0x00, // preamble
        0x0A, 0x08, 0x01, // code section: one body of six bytes
        0x06, 0x02, 0x02, 0x7F, 0x01, 0x7E, 0x0B, // two i32 locals, one i64 local
    ];
    let module = Module::new(&wasm).unwrap();
    assert_eq!(
        module.code_section,
        Some(vec![Function {
            locals: vec![
                FunctionLocal {
                    type_count: 2,
                    value_type: ValueType::I32,
                },
                FunctionLocal {
                    type_count: 1,
                    value_type: ValueType::I64,
                },
            ],
            code: vec![Instruction::End],
        }])
    );
}

#[test]
fn decode_multibyte_varint_index() {
    let wasm = [
        0x00, 0x61, 0x73, 0x6D, 0x01, 0x00, 0x00, 0x00, // preamble
        0x03, 0x03, 0x01, 0xAC, 0x02, // function section: one entry, type index 300
    ];
    let module = Module::new(&wasm).unwrap();
    assert_eq!(module.function_section, Some(vec![300]));
}

#[test]
fn decode_version_little_endian() {
    let wasm = [0x00, 0x61, 0x73, 0x6D, 0x02, 0x01, 0x00, 0x00];
    let module = Module::new(&wasm).unwrap();
    assert_eq!(module.version, 0x0102);
}

#[test]
fn decode_later_section_overwrites() {
    let wasm = [
        0x00, 0x61, 0x73, 0x6D, 0x01, 0x00, 0x00, 0x00, // preamble
        0x03, 0x02, 0x01, 0x00, // function section: [0]
        0x03, 0x02, 0x01, 0x01, // function section again: [1]
    ];
    let module = Module::new(&wasm).unwrap();
    assert_eq!(module.function_section, Some(vec![1]));
}

#[test]
fn decode_bad_magic() {
    let wasm = [0x78, 0x61, 0x73, 0x6D, 0x01, 0x00, 0x00, 0x00];
    assert_eq!(Module::new(&wasm), Err(DecodeError::NotWasm));
}

#[test]
fn decode_short_magic() {
    let wasm = [0x00, 0x61, 0x73];
    assert_eq!(Module::new(&wasm), Err(DecodeError::NotWasm));
}

#[test]
fn decode_truncated_version() {
    let wasm = [0x00, 0x61, 0x73, 0x6D, 0x01, 0x00];
    assert_eq!(Module::new(&wasm), Err(DecodeError::Truncated));
}

#[test]
fn decode_oversized_section_length() {
    // Correct magic and version, then a type section declaring 127 payload
    // bytes where none remain.
    let wasm = [
        0x00, 0x61, 0x73, 0x6D, 0x01, 0x00, 0x00, 0x00, // preamble
        0x01, 0x7F, // type section header: length 127
    ];
    assert_eq!(Module::new(&wasm), Err(DecodeError::Truncated));
}

#[test]
fn decode_unknown_section_code() {
    let wasm = [
        0x00, 0x61, 0x73, 0x6D, 0x01, 0x00, 0x00, 0x00, // preamble
        0x0C, 0x00, // section code 12 is not in the section table
    ];
    assert_eq!(Module::new(&wasm), Err(DecodeError::UnknownSection));
}

#[test]
fn decode_unsupported_section_kind() {
    let wasm = [
        0x00, 0x61, 0x73, 0x6D, 0x01, 0x00, 0x00, 0x00, // preamble
        0x02, 0x00, // import section: mapped, but not understood here
    ];
    assert_eq!(Module::new(&wasm), Err(DecodeError::UnknownSection));
}

#[test]
fn decode_malformed_varint_too_long() {
    let wasm = [
        0x00, 0x61, 0x73, 0x6D, 0x01, 0x00, 0x00, 0x00, // preamble
        0x01, 0xFF, 0xFF, 0xFF, 0xFF, 0xFF, 0x00, // six-byte varint
    ];
    assert_eq!(Module::new(&wasm), Err(DecodeError::MalformedVarint));
}

#[test]
fn decode_malformed_varint_overflow() {
    let wasm = [
        0x00, 0x61, 0x73, 0x6D, 0x01, 0x00, 0x00, 0x00, // preamble
        0x01, 0xFF, 0xFF, 0xFF, 0xFF, 0x7F, // 35 significant bits
    ];
    assert_eq!(Module::new(&wasm), Err(DecodeError::MalformedVarint));
}

#[test]
fn decode_truncated_varint() {
    let wasm = [
        0x00, 0x61, 0x73, 0x6D, 0x01, 0x00, 0x00, 0x00, // preamble
        0x01, 0xFF, 0xFF, 0xFF, 0xFF, 0xFF, // stream ends inside the varint
    ];
    assert_eq!(Module::new(&wasm), Err(DecodeError::Truncated));
}

#[test]
fn section_codes_from_bytes() {
    assert_eq!(SectionCode::from_u8(0x00), Some(SectionCode::Custom));
    assert_eq!(SectionCode::from_u8(0x01), Some(SectionCode::Type));
    assert_eq!(SectionCode::from_u8(0x02), Some(SectionCode::Import));
    assert_eq!(SectionCode::from_u8(0x03), Some(SectionCode::Function));
    assert_eq!(SectionCode::from_u8(0x05), Some(SectionCode::Memory));
    assert_eq!(SectionCode::from_u8(0x07), Some(SectionCode::Export));
    assert_eq!(SectionCode::from_u8(0x0A), Some(SectionCode::Code));
    assert_eq!(SectionCode::from_u8(0x0B), Some(SectionCode::Data));
    assert_eq!(SectionCode::from_u8(0x0C), None);
}

#[test]
fn opcodes_from_bytes() {
    assert_eq!(Opcode::from_u8(0x0B), Some(Opcode::End));
    assert_eq!(Opcode::from_u8(0x20), Some(Opcode::LocalGet));
    assert_eq!(Opcode::from_u8(0x6A), Some(Opcode::I32Add));
    assert_eq!(Opcode::from_u8(0x10), Some(Opcode::Call));
    assert_eq!(Opcode::from_u8(0xFF), None);
}

#[test]
fn decode_unknown_opcode() {
    let wasm = [
        0x00, 0x61, 0x73, 0x6D, 0x01, 0x00, 0x00, 0x00, // preamble
        0x0A, 0x04, 0x01, 0x02, 0x00, 0xFE, // code body with opcode 0xFE
    ];
    assert_eq!(Module::new(&wasm), Err(DecodeError::UnknownOpcode));
}

#[test]
fn decode_invalid_value_type() {
    let wasm = [
        0x00, 0x61, 0x73, 0x6D, 0x01, 0x00, 0x00, 0x00, // preamble
        0x01, 0x05, 0x01, 0x60, 0x01, 0x40, 0x00, // parameter type byte 0x40
    ];
    assert_eq!(Module::new(&wasm), Err(DecodeError::InvalidValueType));
}

#[test]
fn decode_invalid_func_type_form() {
    let wasm = [
        0x00, 0x61, 0x73, 0x6D, 0x01, 0x00, 0x00, 0x00, // preamble
        0x01, 0x04, 0x01, 0x61, 0x00, 0x00, // form byte 0x61 instead of 0x60
    ];
    assert_eq!(Module::new(&wasm), Err(DecodeError::InvalidFuncType));
}

#[test]
fn decode_truncated_function_body() {
    let wasm = [
        0x00, 0x61, 0x73, 0x6D, 0x01, 0x00, 0x00, 0x00, // preamble
        0x0A, 0x02, 0x01, 0x05, // body declares five bytes, none remain
    ];
    assert_eq!(Module::new(&wasm), Err(DecodeError::Truncated));
}

#[test]
fn decode_body_missing_end() {
    let wasm = [
        0x00, 0x61, 0x73, 0x6D, 0x01, 0x00, 0x00, 0x00, // preamble
        0x0A, 0x03, 0x01, 0x01, 0x00, // body ends without an End opcode
    ];
    assert_eq!(Module::new(&wasm), Err(DecodeError::Truncated));
}
