[package]
name = "rustmailer_core"
version = "0.1.0"
edition = "2021"
publish = false

[dependencies]
ahash = "=0.8.12"
chrono = { version = "=0.4.45", default-features = false, features = ["alloc"] }
regex = "=1.13.1"
url = "=2.5.8"
http = "=1.5.0"
mime_guess = "=2.0.5"
mail-parser = "=0.11.9"
base64 = "0.22"
serde = { version = "=1.0.229", features = ["derive"] }
serde_json = "=1.0.154"
