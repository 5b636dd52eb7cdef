[package]
name = "session_relay"
version = "0.1.0"
edition = "2021"
publish = false

[dependencies]
tokio = { version = "=1.54.1", features = ["sync"] }
serde = { version = "=1.0.229", features = ["derive"] }
serde_json = "=1.0.154"
uuid = { version = "=1.29.0", features = ["v4"] }
aes-gcm = "=0.10.3"
base64 = "=0.21.7"
rand = "=0.8.8"
hex = "=0.4.3"
actix = "=0.13.5"
actix-web = { version = "=4.18.1", default-features = false, features = ["macros", "ws"] }
actix-web-actors = "=4.3.1"
actix-cors = "=0.7.2"
sea-orm = { version = "=1.1.20", default-features = false, features = ["macros", "with-chrono", "sqlx-mysql", "runtime-tokio-rustls"] }
sea-orm-migration = { version = "=1.1.20", default-features = false, features = ["sqlx-mysql", "runtime-tokio-rustls"] }
jsonwebtoken = "=9.3.1"
argon2 = "=0.5.3"
chrono = { version = "=0.4.45", features = ["serde"] }
dotenvy = "=0.15.7"
env_logger = "=0.11.11"
futures = "=0.3.34"
async-trait = "=0.1.92"
