[package]
name = "new_home_server"
version = "0.1.0"
edition = "2021"
publish = false

[dependencies]
actix = "0.10"
actix-web = { version = "3", default-features = false }
futures = "0.3"
percent-encoding = "2"
serde = { version = "1", features = ["derive"] }
serde_json = "1"
serde_yaml = "0.8"
