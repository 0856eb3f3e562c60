[package]
name = "secretvars"
version = "0.1.0"
edition = "2021"
publish = false

[dependencies]
secret-cosmwasm-std = "*"
secret-toolkit = { version = "*", default-features = false, features = ["viewing-key"] }
secret-toolkit-crypto = { version = "*", default-features = false, features = ["hash"] }
serde = { version = "1", features = ["derive"] }
schemars = "0.8"
