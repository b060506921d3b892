[package]
name = "payment_settle_accounts"
version = "0.1.0"
edition = "2021"
publish = false

[dependencies]
rust_decimal = { version = "1", features = ["serde-with-str"] }
serde = { version = "1", features = ["derive"] }
csv = "1"
thiserror = "1"
anyhow = "1"
env_logger = "*"
log = "0.4"
