[package]
name = "fungible_token"
version = "0.1.0"
edition = "2021"
publish = false

[dependencies]
near-bindgen = "=0.1.0"
serde = { version = "=1.0.229", features = ["derive"] }
