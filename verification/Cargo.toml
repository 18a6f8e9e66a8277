[package]
name = "user_auth"
version = "0.1.0"
edition = "2021"
publish = false

[dependencies]
fancy-regex = "=0.20.0"
rust-argon2 = "=3.0.0"
base64 = "=0.13.1"
rand = "=0.8.8"
woothee = "=0.13.0"
jsonwebtoken = "=9.3.1"
serde = { version = "=1.0.229", features = ["derive"] }
serde_json = { version = "=1.0.154", features = ["raw_value"] }
uuid = { version = "=1.29.0", features = ["v4", "serde"] }
actix-web = "=4.18.1"
sqlx = { version = "=0.8.6", default-features = false, features = ["runtime-tokio", "postgres", "uuid"] }
redis = { version = "=0.25.5", features = ["r2d2"] }
r2d2 = "=0.8.10"
dotenv = "=0.15.0"
pretty_env_logger = "=0.5.0"
anyhow = "=1.0.104"
time = "=0.3.55"
