[package]
name = "store_bootstrap"
version = "0.1.0"
edition = "2021"
publish = false

[dependencies]
async-std = { version = "1", features = ["attributes"] }
sqlx = { version = "0.8", default-features = false, features = ["sqlite", "runtime-async-std", "migrate"] }
