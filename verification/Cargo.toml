[package]
name = "vocabtool"
version = "0.1.0"
edition = "2021"
publish = false

[dependencies]
actix-cors = "0.5"
actix-web = { version = "3", default-features = false }
anyhow = "1"
dotenv = "0.15"
env_logger = "0.7"
futures = "0.3"
listenfd = "0.3"
log = "0.4"
serde = { version = "1", features = ["derive"] }
serde_json = "1"
sqlx = { version = "0.3", default-features = false, features = ["runtime-tokio", "mysql"] }
