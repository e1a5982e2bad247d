[package]
name = "anchor_basset"
version = "0.1.0"
edition = "2021"
publish = false

[dependencies]
cosmwasm-std = { version = "=0.16.7", features = ["staking"] }
cw-storage-plus = "=0.8.1"
cw20 = "=0.8.1"
terra-cosmwasm = "=2.2.0"
rand = "=0.5.6"
schemars = "=0.8.22"
serde = { version = "=1.0.229", default-features = false, features = ["derive"] }
