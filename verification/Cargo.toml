[package]
name = "lemmy_core"
version = "0.1.0"
edition = "2021"
publish = false

[dependencies]
activitystreams = "=0.7.0-alpha.25"
activitystreams-ext = "=0.1.0-alpha.3"
chrono = "=0.4.45"
serde = { version = "=1.0.229", features = ["derive"] }
serde_json = "=1.0.151"
url = "=2.5.8"
