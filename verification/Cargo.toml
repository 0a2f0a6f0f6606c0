[package]
name = "demo_plugins"
version = "0.1.0"
edition = "2021"
publish = false

[dependencies]
extism-pdk = "*"
serde = { version = "*", features = ["derive"] }
