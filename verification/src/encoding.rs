//! Fixed-layout binary encoding of record fields.

pub mod error;
pub mod field;
pub mod float;
pub mod offset;
