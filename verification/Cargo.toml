[package]
name = "poll_ledger"
version = "0.1.0"
edition = "2021"
publish = false

[dependencies]
cosmwasm-std = "2"
cw-storage-plus = "2"
serde = { version = "1", features = ["derive"] }
time = { version = "0.3", features = ["formatting"] }
