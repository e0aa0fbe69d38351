[package]
name = "holodex"
version = "0.3.1"
edition = "2021"
publish = false

[dependencies]
async-stream = "0.3"
chrono = { version = "0.4", default-features = false, features = ["std", "serde"] }
futures-core = "0.3"
quick-error = "2"
regex = "1"
serde = { version = "1", features = ["derive"] }
serde_json = "1"
serde_urlencoded = "0.7"
serde_with = "2"
ureq = { version = "2", default-features = false, features = ["json"] }
