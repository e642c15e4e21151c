[package]
name = "caramuru"
version = "0.1.0"
edition = "2021"
publish = false

[dependencies]
rinha = "*"
serde = { version = "*", features = ["derive"] }
serde_json = "*"
