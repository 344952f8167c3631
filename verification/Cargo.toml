[package]
name = "yavin"
version = "0.1.0"
edition = "2021"
publish = false

[dependencies]
serde_json = "1"
serde = { version = "1", features = ["derive"] }
actix-web = "4"
actix-files = "0.6"
tera = "1"
reqwest = { version = "0.12", default-features = false, features = ["json"] }
log = "0.4"
env_logger = "0.11"
