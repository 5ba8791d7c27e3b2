use minwasm::execution::value::{TypeError, Value};

#[test]
fn add_i32_values() {
    assert_eq!(
        Value::I32(5).add(Value::I32(7)),
        Ok(Value::I32(12))
    );
}

#[test]
fn add_i64_values() {
    assert_eq!(
        Value::I64(5).add(Value::I64(7)),
        Ok(Value::I64(12))
    );
}

#[test]
fn add_mismatched_tags() {
    assert_eq!(Value::I32(5).add(Value::I64(7)), Err(TypeError));
    assert_eq!(Value::I64(-3).add(Value::I32(0)), Err(TypeError));
}

#[test]
fn add_wraps_at_tag_width() {
    assert_eq!(
        Value::I32(i32::MAX).add(Value::I32(1)),
        Ok(Value::I32(i32::MIN))
    );
    assert_eq!(
        Value::I64(i64::MIN).add(Value::I64(-1)),
        Ok(Value::I64(i64::MAX))
    );
}

#[test]
fn convert_to_native_i32() {
    assert_eq!(Value::I32(5).to_i32(), Ok(5));
    assert_eq!(Value::I64(5).to_i32(), Err(TypeError));
}

#[test]
fn convert_to_native_i64() {
    assert_eq!(Value::I64(5).to_i64(), Ok(5));
    assert_eq!(Value::I32(5).to_i64(), Err(TypeError));
}

#[test]
fn wrap_native_integers() {
    assert_eq!(Value::from(5i32), Value::I32(5));
    assert_eq!(Value::from(5i64), Value::I64(5));
}
