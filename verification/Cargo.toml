[package]
name = "toypay"
version = "0.1.0"
edition = "2021"
publish = false

[dependencies]
lru = "*"
rust_decimal = "*"
csv = "*"
serde = { version = "*", features = ["derive"] }
anyhow = "*"
