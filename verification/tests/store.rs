use minwasm::binary::instruction::Instruction;
use minwasm::binary::module::Module;
use minwasm::binary::section::Function;
use minwasm::binary::types::{FuncType, FunctionLocal, ValueType};
use minwasm::execution::store::{FuncInst, InstantiationError, Store};

fn module_with(
    type_section: Option<Vec<FuncType>>,
    function_section: Option<Vec<u32>>,
    code_section: Option<Vec<Function>>,
) -> Module {
    Module {
        type_section,
        function_section,
        code_section,
        ..Default::default()
    }
}

#[test]
fn store_single_function() {
    let func_type = FuncType {
        params: vec![ValueType::I32],
        results: vec![ValueType::I64],
    };
    let body = Function {
        locals: vec![FunctionLocal {
            type_count: 2,
            value_type: ValueType::I64,
        }],
        code: vec![Instruction::LocalGet(0), Instruction::End],
    };
    let module = module_with(
        Some(vec![func_type.clone()]),
        Some(vec![0]),
        Some(vec![body.clone()]),
    );
    let store = Store::new(module).unwrap();
    assert_eq!(store.funcs.len(), 1);
    let FuncInst::Internal(inst) = &store.funcs[0];
    assert_eq!(inst.func_type, func_type);
    assert_eq!(inst.code.locals, vec![ValueType::I64, ValueType::I64]);
    assert_eq!(inst.code.body, body.code);
}

#[test]
fn store_empty_without_function_section() {
    let body = Function {
        locals: vec![],
        code: vec![Instruction::End],
    };
    let module = module_with(Some(vec![FuncType::default()]), None, Some(vec![body]));
    let store = Store::new(module).unwrap();
    assert_eq!(store.funcs.len(), 0);
}

#[test]
fn store_empty_without_code_section() {
    let module = module_with(Some(vec![FuncType::default()]), Some(vec![0]), None);
    let store = Store::new(module).unwrap();
    assert_eq!(store.funcs.len(), 0);
}

#[test]
fn store_missing_type_section() {
    let body = Function {
        locals: vec![],
        code: vec![Instruction::End],
    };
    let module = module_with(None, Some(vec![0]), Some(vec![body]));
    assert!(matches!(
        Store::new(module),
        Err(InstantiationError::MissingTypeSection)
    ));
}

#[test]
fn store_type_index_out_of_range() {
    let body = Function {
        locals: vec![],
        code: vec![Instruction::End],
    };
    let module = module_with(Some(vec![FuncType::default()]), Some(vec![1]), Some(vec![body]));
    assert!(matches!(
        Store::new(module),
        Err(InstantiationError::TypeIndexOutOfRange)
    ));
}

#[test]
fn store_pairs_sections_by_index() {
    let t0 = FuncType::default();
    let t1 = FuncType {
        params: vec![ValueType::I32],
        results: vec![],
    };
    let b0 = Function {
        locals: vec![],
        code: vec![Instruction::End],
    };
    let b1 = Function {
        locals: vec![],
        code: vec![Instruction::I32Add, Instruction::End],
    };
    let module = module_with(
        Some(vec![t0.clone(), t1.clone()]),
        Some(vec![1, 0]),
        Some(vec![b0.clone(), b1.clone()]),
    );
    let store = Store::new(module).unwrap();
    assert_eq!(store.funcs.len(), 2);
    let FuncInst::Internal(first) = &store.funcs[0];
    assert_eq!(first.func_type, t1);
    assert_eq!(first.code.body, b0.code);
    let FuncInst::Internal(second) = &store.funcs[1];
    assert_eq!(second.func_type, t0);
    assert_eq!(second.code.body, b1.code);
}

#[test]
fn store_stops_at_shorter_section() {
    // The decoder accepts a stream whose function section declares two
    // entries while its code section holds one body; pairing stops at the
    // shorter side.
    let body = Function {
        locals: vec![],
        code: vec![Instruction::End],
    };
    let module = module_with(
        Some(vec![FuncType::default()]),
        Some(vec![0, 0]),
        Some(vec![body]),
    );
    let store = Store::new(module).unwrap();
    assert_eq!(store.funcs.len(), 1);
}

#[test]
fn store_from_decoded_module() {
    let wasm = wat::parse_str("(module (func))").unwrap();
    let module = Module::new(&wasm).unwrap();
    let store = Store::new(module).unwrap();
    assert_eq!(store.funcs.len(), 1);
    let FuncInst::Internal(inst) = &store.funcs[0];
    assert_eq!(inst.func_type, FuncType::default());
    assert_eq!(inst.code.locals, vec![]);
    assert_eq!(inst.code.body, vec![Instruction::End]);
}
