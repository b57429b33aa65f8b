[package]
name = "b2_backblaze"
version = "0.1.0"
edition = "2021"
publish = false

[dependencies]
base64 = "=0.22.1"
hex = "=0.4.3"
new_mime_guess = "=4.0.4"
sha1 = "=0.10.7"
json = "=0.12.4"
tokio = { version = "=1.54.1", features = ["sync", "time", "fs", "io-util"] }
reqwest = { version = "=0.12.28", default-features = false, features = ["rustls-tls"] }
