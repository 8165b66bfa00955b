[package]
name = "chirpstack"
version = "0.1.0"
edition = "2021"
publish = false

[dependencies]
hex = "=0.4.3"
diesel = { version = "=2.3.14", default-features = false }
uuid = "=1.29.0"
redis = { version = "=0.27.6", features = ["tokio-comp"] }
anyhow = "=1.0.104"
chrono = "0.4"
pbjson-types = "0.7"
