[package]
name = "hash_writer"
version = "0.1.0"
edition = "2021"
publish = false

[dependencies]
digest = "0.7"

[dev-dependencies]
sha2 = "0.7"
