[package]
name = "memo_types"
version = "0.1.0"
edition = "2021"
publish = false

[dependencies]
curve25519-dalek = "4"
sha2 = "0.10"
subtle = "2"

[dev-dependencies]
rand = "0.8"
