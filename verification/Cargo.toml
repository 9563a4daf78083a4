[package]
name = "campus_login"
version = "0.1.0"
edition = "2021"
publish = false

[dependencies]
serde = { version = "=1.0.229", features = ["derive"] }
serde_json = "=1.0.154"
url = "=2.5.8"
urlencoding = "=2.1.3"
chrono = "=0.4.45"
regex = "=1.13.1"
sha2 = "=0.10.9"
open = "5"
