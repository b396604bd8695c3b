[package]
name = "container_control"
version = "0.1.0"
edition = "2021"
publish = false

[dependencies]
jsonwebtoken = "9"
serde = { version = "1", features = ["derive"] }
serde_json = "1"
actix-web = "4"
actix-cors = "0.7"
bollard = "0.18"
dotenv = "0.15"
env_logger = "0.11"
lazy_static = "1"
