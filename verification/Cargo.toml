[package]
name = "native_bot"
version = "0.1.0"
edition = "2021"
publish = false

[dependencies]
riichienv-core = "*"
serde = { version = "1", features = ["derive"] }
