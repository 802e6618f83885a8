//! Bounds-checked binary encoding of fixed-width fields and a registry of
//! index metadata kept in a key-value store.

#![allow(unused_imports)]

pub mod bytes;
pub mod encoding;
pub mod views;
