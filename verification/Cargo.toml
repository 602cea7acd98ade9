[package]
name = "svc_rust"
version = "0.1.0"
edition = "2021"
publish = false

[dependencies]
serde = { version = "1", features = ["derive"] }
serde_json = "1"
actix-web = { version = "4", default-features = false, features = ["macros"] }
actix-multipart = { version = "0.6", default-features = false }
futures = "0.3"
env_logger = "0.10"
log = "0.4"
tracing = "0.1"
zip = { version = "0.6", default-features = false, features = ["deflate"] }
