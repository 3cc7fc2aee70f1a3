[package]
name = "fleqtra"
version = "0.1.0"
edition = "2021"
publish = false

[dependencies]
argon2 = "0.5"
axum = "0.8"
axum-extra = { version = "0.10", features = ["multipart"] }
deadpool-postgres = "0.14"
dotenvy = "0.15"
jsonwebtoken = "9"
log = "0.4"
rand = "0.9"
serde = { version = "1", features = ["derive"] }
serde_json = { version = "1", features = ["raw_value"] }
tokio = { version = "1", features = ["full"] }
tokio-postgres = "0.7"
uuid = "1"
