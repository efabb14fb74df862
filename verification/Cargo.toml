[package]
name = "garmin_export"
version = "0.1.0"
edition = "2021"
publish = false

[dependencies]
chrono = "0.4"
clap = { version = "4", features = ["derive"] }
env_logger = "0.10"
fitparser = "*"
log = "0.4"
reqwest = { version = "0.11", features = ["blocking", "cookies", "json"] }
serde = { version = "1", features = ["derive"] }
serde_json = "1"
zip = { version = "0.6", default-features = false, features = ["deflate"] }
