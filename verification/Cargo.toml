[package]
name = "guitar_catalog"
version = "0.1.0"
edition = "2021"
publish = false

[dependencies]
serde = { version = "*", features = ["derive"] }
serde_json = "*"
actix-web = "*"
actix-cors = "*"
dotenvy = "*"
env_logger = "*"
utoipa = "*"
