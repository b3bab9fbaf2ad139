[package]
name = "camera_rest_api"
version = "0.1.0"
edition = "2021"
publish = false

[dependencies]
actix-web = "4"
env_logger = "*"
log = "0.4"
opencv = "*"
serde = { version = "1", features = ["derive"] }
serde_yaml = "0.9"
