[package]
name = "chunkrs"
version = "0.1.0"
edition = "2021"
publish = false

[dependencies]
bytes = "1"
blake3 = "1"
futures-core = "0.3"
futures-io = "0.3"
pin-project-lite = "0.2"
