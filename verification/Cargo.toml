[package]
name = "fileshare"
version = "0.1.0"
edition = "2021"
publish = false

[dependencies]
actix-cors = "=0.7.2"
actix-files = "=0.6.10"
actix-multipart = "=0.7.2"
actix-web = { version = "=4.18.1", default-features = false, features = ["macros"] }
actix-ws = "=0.3.1"
base64 = "=0.22.1"
chrono = "=0.4.45"
deadpool-redis = "=0.23.1"
env_logger = "=0.11.11"
futures-util = "=0.3.34"
log = "=0.4.34"
once_cell = "=1.21.4"
sanitize-filename = "=0.6.0"
serde = { version = "=1.0.229", features = ["derive"] }
tokio = { version = "=1.54.1", features = ["sync", "fs", "io-util", "macros", "rt"] }
