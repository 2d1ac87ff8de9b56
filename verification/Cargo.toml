[package]
name = "ecg_hub"
version = "0.1.0"
edition = "2021"
publish = false

[dependencies]
argon2 = "0.5"
async-trait = "0.1"
axum = { version = "0.6", features = ["headers"] }
axum-extra = { version = "0.8", features = ["cookie"] }
axum-server = { version = "0.5", features = ["tls-rustls"] }
dotenvy = "0.15"
ed25519-compact = "2"
envy = "0.4"
hex = "0.4"
hyper = "0.14"
jsonwebtoken = "8"
rand = "0.8"
serde = { version = "1", features = ["derive"] }
serde_json = "1"
serde_repr = "0.1"
sqlx = { version = "0.7", default-features = false, features = ["runtime-tokio-rustls", "postgres", "uuid", "time", "json", "macros"] }
time = "0.3"
tokio = { version = "1", features = ["rt", "net", "time"] }
tracing = "0.1"
tracing-subscriber = { version = "0.3", features = ["env-filter"] }
uuid = { version = "1", features = ["v4", "serde"] }
validator = "0.16"
