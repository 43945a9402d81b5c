[package]
name = "treasury"
version = "0.1.0"
edition = "2021"
publish = false

[dependencies]
cosmwasm-std = { version = "2", features = ["cosmwasm_2_0"] }
cw-storage-plus = "2"
cosmos-sdk-proto = { version = "*", default-features = false }
serde = { version = "1", features = ["derive"] }
serde_json = "1"
url = "2"
