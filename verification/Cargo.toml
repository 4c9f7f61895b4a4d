[package]
name = "interchain_vault"
version = "0.1.0"
edition = "2021"
publish = false

[dependencies]
cosmos-sdk-proto = { version = "=0.16.0", default-features = false }
cosmwasm-std = "=1.5.11"
cw-storage-plus = "=1.2.0"
cw2 = "=1.1.2"
neutron-sdk = "=0.6.1"
osmosis-std = "=0.16.2"
protobuf = "=3.2.0"
schemars = "=0.8.22"
serde = { version = "=1.0.229", default-features = false, features = ["derive"] }
serde-json-wasm = "=0.5.2"
