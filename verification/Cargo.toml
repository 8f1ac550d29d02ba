[package]
name = "lobby_registry"
version = "0.1.0"
edition = "2021"
publish = false

[dependencies]
serde = { version = "1", features = ["derive"] }
secret-cosmwasm-std = "=0.10.1"
secret-cosmwasm-storage = "=0.10.0"
secret-toolkit = "=0.2.0"
