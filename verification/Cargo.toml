[package]
name = "zetro"
version = "0.1.0"
edition = "2021"
publish = false

[dependencies]
rust-crypto = "0.2"
base64 = "0.13"
convert_case = "*"
regex = "*"
serde_json = "*"
tokio = { version = "*", features = ["sync", "macros", "rt-multi-thread"] }
async-trait = "*"
