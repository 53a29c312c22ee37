[package]
name = "push_relay"
version = "0.1.0"
edition = "2021"
publish = false

[dependencies]
actix-web = { version = "4", default-features = false, features = ["macros"] }
dotenvy = "*"
env_logger = { version = "*", default-features = false }
log = "*"
matrix-sdk = { version = "=0.18.0", default-features = false }
once_cell = "1"
serde = { version = "1", features = ["derive"] }
toml = "=1.1.8"
