[package]
name = "relay_url"
version = "0.1.0"
edition = "2021"
publish = false

[dependencies]
http = "1"
serde = "1"
