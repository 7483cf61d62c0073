[package]
name = "identity_token"
version = "0.1.0"
edition = "2021"
publish = false

[dependencies]
dotenvy = "0.15"
hyper = "1"
jsonwebtoken = { version = "9", default-features = false }
serde = { version = "1", features = ["derive"] }
serde_json = "1"
