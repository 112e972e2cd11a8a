[package]
name = "auth_core"
version = "0.1.0"
edition = "2021"
publish = false

[dependencies]
rust-argon2 = "=3.0.0"
jsonwebtoken = { version = "=11.1.0", features = ["rust_crypto"] }
rand = "=0.10.3"
uuid = { version = "=1.27.0", features = ["v4"] }
validator = "=0.21.0"
chrono = "=0.4.45"
actix-web = "=4.15.0"
actix-cors = "=0.7.2"
serde = { version = "=1.0.229", features = ["derive"] }
serde_json = "=1.0.151"
futures = "=0.3.34"
