[package]
name = "rust_web_dev"
version = "0.1.0"
edition = "2021"
publish = false

[dependencies]
rust-argon2 = "*"
rand = "0.8"
paseto = "2.0"
chrono = "0.4"
reqwest = { version = "0.11", default-features = false, features = ["json"] }
tokio = { version = "1", features = ["rt-multi-thread", "macros", "time"] }
serde = { version = "1", features = ["derive"] }
serde_json = "1"
