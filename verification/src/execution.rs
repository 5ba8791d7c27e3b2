//! Instantiation and the runtime value model.

pub mod store;
pub mod value;
