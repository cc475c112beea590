[package]
name = "caesium"
version = "0.1.0"
edition = "2021"
publish = false

[dependencies]
rust-crypto = "*"
sha2 = "*"
hex = "*"
serde = { version = "*", features = ["derive"] }
serde_json = "*"
toml = "*"
url = "*"
git2 = { version = "*", default-features = false }
