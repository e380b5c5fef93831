[package]
name = "cw-ibc-core"
version = "0.1.0"
edition = "2021"
publish = false

[dependencies]
cosmwasm-std = "=1.5.11"
cosmwasm-schema = "=1.5.11"
cw-storage-plus = "=1.2.0"
cw2 = "=1.1.2"
ibc = { version = "=0.50.0", default-features = false, features = ["serde"] }
prost = "=0.12.6"
bytes = "=1.12.1"
hex = "=0.4.3"
sha2 = "=0.10.9"
sha3 = "=0.10.9"
serde = { version = "=1.0.229", features = ["derive"] }
serde-json-wasm = "=0.5.2"
schemars = "=0.8.22"
thiserror = "=1.0.69"
