[package]
name = "gotham_sessions"
version = "0.1.0"
edition = "2021"
publish = false

[dependencies]
config = "=0.15.27"
serde_json = "=1.0.151"
