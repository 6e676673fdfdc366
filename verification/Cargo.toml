[package]
name = "service_kit"
version = "0.1.0"
edition = "2021"
publish = false

[dependencies]
axum = { version = "*", default-features = false }
chrono = { version = "0.4", default-features = false, features = ["clock"] }
redis = { version = "*", default-features = false }
sqlx = { version = "*", default-features = false }
