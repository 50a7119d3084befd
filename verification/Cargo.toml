[package]
name = "chunk_store"
version = "0.1.0"
edition = "2021"
publish = false

[dependencies]
rustc-serialize = "*"
tempdir = "*"
xor_name = "*"

[dev-dependencies]
rand = "*"
