[package]
name = "rustcast"
version = "0.1.0"
edition = "2021"
publish = false

[dependencies]
audiopus = "*"
base64 = "*"
sha1 = "*"
tiny_http = "*"
crossbeam-channel = "*"
serde = { version = "*", features = ["derive"] }
serde_json = "*"
directories = "*"
mp3lame-encoder = "*"
