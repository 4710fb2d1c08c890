[package]
name = "cw-hub-bnusd"
version = "0.1.0"
edition = "2021"
publish = false

[dependencies]
bytes = "1"
cosmwasm-std = "1.5"
cw-storage-plus = "1.2"
cw20-base = { version = "1.1", features = ["library"] }
serde = { version = "1", default-features = false, features = ["derive"] }

[dev-dependencies]
rlp = "0.5"
