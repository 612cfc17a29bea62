[package]
name = "hashbench"
version = "0.1.0"
edition = "2021"
publish = false

[dependencies]
md-5 = "*"
sha1 = "*"
sha2 = "*"
sha3 = "*"
blake3 = "1"
rand = "0.10"
clap = { version = "4", features = ["derive"] }
anyhow = "1"
serde_json = "1"
wasm-bindgen = "0.2"
