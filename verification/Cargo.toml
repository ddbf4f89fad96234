[package]
name = "zaps"
version = "0.1.0"
edition = "2021"
publish = false

[dependencies]
async-trait = "0.1"
axum = "0.7"
bcrypt = "0.15"
chrono = { version = "0.4", features = ["serde"] }
deadpool-postgres = "0.12"
governor = "0.6"
jsonwebtoken = "9"
serde = { version = "1", features = ["derive"] }
serde_json = "1"
soroban-sdk = "21"
sqlx = { version = "0.7", default-features = false, features = ["postgres", "runtime-tokio", "migrate"] }
tokio-postgres = { version = "0.7", features = ["with-uuid-1", "with-chrono-0_4", "with-serde_json-1"] }
uuid = { version = "1", features = ["v4", "serde"] }
