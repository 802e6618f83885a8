[package]
name = "index_meta"
version = "0.1.0"
edition = "2021"
publish = false

[dependencies]
byteorder = "1"
enum-primitive-derive = "0.2"
failure = "0.1"
num-traits = "0.2"
serde = "1"
serde_derive = "1"
serde_json = "1"
