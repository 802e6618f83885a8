//! The registry that gives every named index a stable identifier and keeps
//! its metadata in a key-value store.

pub mod access;
pub mod address;
pub mod attribute;
pub mod error;
pub mod memory;
pub mod metadata;
pub mod pool;
pub mod reader;
pub mod resolve;
pub mod state;
