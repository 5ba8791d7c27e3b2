//! The binary-format data model and decoder.

pub mod error;
pub mod instruction;
pub mod module;
pub mod section;
pub mod leb128;
pub mod opcode;
pub mod types;
