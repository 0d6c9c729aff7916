[package]
name = "amm"
version = "0.1.0"
edition = "2021"
publish = false

[dependencies]
cosmwasm-std = "1.5"
cw0 = "0.10"
cw2 = "1.1"
cw20 = "1.1"
cw20-base = { version = "1.1", features = ["library"] }
cw-storage-plus = "1.2"
num = "0.4"
schemars = "0.8"
serde = { version = "1", features = ["derive"] }
thiserror = "1"
