[package]
name = "agronet_backend"
version = "0.1.0"
edition = "2021"
publish = false

[dependencies]
sha2 = "0.10"
hex = "0.4"
regex = "1"
rust_decimal = "1"
ethers-core = { version = "2.0", default-features = false }
hidapi = "2"
serde = { version = "1", features = ["derive"] }
serde_json = "1"
axum = "0.6"
tokio = { version = "1", features = ["full"] }
sqlx = { version = "0.7", features = ["runtime-tokio", "tls-rustls", "postgres", "rust_decimal", "chrono"] }
chrono = "0.4"
uuid = { version = "1", features = ["v4"] }
tracing = "0.1"
tracing-subscriber = { version = "0.3", features = ["env-filter"] }
dotenvy = "0.15"
jsonwebtoken = "9"
reqwest = { version = "0.11", features = ["json"] }
sled = "0.34"
tower = "0.4"
tower-http = { version = "0.4", features = ["cors"] }
