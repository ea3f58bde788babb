[package]
name = "kiro_oauth"
version = "0.1.0"
edition = "2021"
publish = false

[dependencies]
fastrand = "*"
axum = "*"
parking_lot = "*"
reqwest = { version = "*", default-features = false, features = ["json"] }
serde = { version = "*", features = ["derive"] }
serde_json = "*"
anyhow = "*"
