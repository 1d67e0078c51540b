[package]
name = "docxy"
version = "0.1.0"
edition = "2021"
publish = false

[dependencies]
actix-web = { version = "4", features = ["rustls"] }
base64 = "0.21"
chrono = "0.4"
config = { version = "0.13", default-features = false, features = ["toml"] }
env_logger = "0.10"
futures = "0.3"
lazy_static = "1"
log = "0.4"
reqwest = { version = "0.11", default-features = false, features = ["json", "stream", "rustls-tls"] }
rustls = "0.20"
rustls-pemfile = "1"
serde = { version = "1", features = ["derive"] }
serde_json = "1"
sha2 = "0.10"
thiserror = "1"
