[package]
name = "inheritx_backend"
version = "0.1.0"
edition = "2021"
publish = false

[dependencies]
anyhow = "1"
async-trait = "0.1"
axum = "0.7"
bcrypt = "0.15"
chrono = { version = "0.4", features = ["serde"] }
deadpool-postgres = "0.12"
dotenvy = "0.15"
hex = "0.4"
jsonwebtoken = "9"
rand = "0.8"
ring = "0.17"
rust_decimal = { version = "1", features = ["serde-with-str"] }
serde = { version = "1", features = ["derive"] }
serde_json = "1"
sqlx = { version = "0.7.4", features = ["postgres", "runtime-tokio", "uuid", "chrono"] }
stellar-strkey = "0.0.8"
tracing = "0.1"
uuid = { version = "1", features = ["v4", "serde"] }
