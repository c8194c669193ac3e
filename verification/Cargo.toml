[package]
name = "howl_pack_contract"
version = "0.1.0"
edition = "2021"
publish = false

[dependencies]
cosmwasm-schema = "1"
cosmwasm-std = "1"
cw-storage-plus = "1"
cw2 = "1"
cw721 = "0.18"
schemars = "0.8"
serde = { version = "1", features = ["derive"] }
