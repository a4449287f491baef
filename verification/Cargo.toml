[package]
name = "ptv"
version = "0.1.0"
edition = "2021"
publish = false

[dependencies]
percent-encoding = "2"
hmac = "0.12"
sha1 = "0.10"
serde = { version = "1", features = ["derive"] }
serde_json = "1"
time = { version = "0.3", features = ["serde-well-known", "parsing", "formatting"] }
url = "2"
http = "1"
