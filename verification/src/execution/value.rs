//! The runtime value model: a tagged value over the supported numeric types,
//! with type-checked conversion and arithmetic. A tag mismatch on conversion
//! or arithmetic is reported as a `TypeError`, never as a panic.

use vstd::prelude::*;

verus! {

/// A runtime value of the engine: a 32-bit or a 64-bit signed integer,
/// tagged with its width.
#[derive(Debug, Clone, Copy, PartialEq, Eq, Structural)]
pub enum Value {
    I32(i32),
    I64(i64),
}

/// A value-tag mismatch on conversion or arithmetic. A validated module's
/// operand stack is statically typed, so this signals a decoding or
/// validation bug rather than a recoverable runtime condition.
#[derive(Debug, Clone, Copy, PartialEq, Eq, Structural)]
pub struct TypeError;

impl Value {
    /// Adds two values of the same tag, wrapping at that tag's bit width;
    /// values of different tags do not add and yield a `TypeError`.
    pub fn add(self, rhs: Value) -> (r: Result<Value, TypeError>)
        ensures
            r == match (self, rhs) {
                (Value::I32(a), Value::I32(b)) => Ok::<Value, TypeError>(
                    Value::I32(a.wrapping_add(b)),
                ),
                (Value::I64(a), Value::I64(b)) => Ok::<Value, TypeError>(
                    Value::I64(a.wrapping_add(b)),
                ),
                _ => Err::<Value, TypeError>(TypeError),
            },
    {
        match (self, rhs) {
            (Value::I32(a), Value::I32(b)) => Ok(Value::I32(a.wrapping_add(b))),
            (Value::I64(a), Value::I64(b)) => Ok(Value::I64(a.wrapping_add(b))),
            _ => Err(TypeError),
        }
    }

    /// Converts to a native 32-bit integer: succeeds exactly on `I32` values.
    pub fn to_i32(self) -> (r: Result<i32, TypeError>)
        ensures
            r == match self {
                Value::I32(v) => Ok::<i32, TypeError>(v),
                Value::I64(_) => Err::<i32, TypeError>(TypeError),
            },
    {
        match self {
            Value::I32(v) => Ok(v),
            Value::I64(_) => Err(TypeError),
        }
    }

    /// Converts to a native 64-bit integer: succeeds exactly on `I64` values.
    pub fn to_i64(self) -> (r: Result<i64, TypeError>)
        ensures
            r == match self {
                Value::I32(_) => Err::<i64, TypeError>(TypeError),
                Value::I64(v) => Ok::<i64, TypeError>(v),
            },
    {
        match self {
            Value::I32(_) => Err(TypeError),
            Value::I64(v) => Ok(v),
        }
    }
}

impl From<i32> for Value {
    /// Wraps a native 32-bit integer as an `I32` value.
    fn from(value: i32) -> (r: Value) {
        Value::I32(value)
    }
}

impl vstd::std_specs::convert::FromSpecImpl<i32> for Value {
    open spec fn obeys_from_spec() -> bool {
        true
    }

    open spec fn from_spec(value: i32) -> Value {
        Value::I32(value)
    }
}

impl From<i64> for Value {
    /// Wraps a native 64-bit integer as an `I64` value.
    fn from(value: i64) -> (r: Value) {
        Value::I64(value)
    }
}

impl vstd::std_specs::convert::FromSpecImpl<i64> for Value {
    open spec fn obeys_from_spec() -> bool {
        true
    }

    open spec fn from_spec(value: i64) -> Value {
        Value::I64(value)
    }
}

} // verus!

