[package]
name = "sqlx_d1"
version = "0.1.0"
edition = "2021"
publish = false

[dependencies]
chrono = { version = "0.4", default-features = false, features = ["std"] }
hex = "0.4"
sha2 = "0.10"
uuid = "1"
serde = { version = "1", features = ["derive"] }
serde_json = "1"
