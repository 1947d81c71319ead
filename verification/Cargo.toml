[package]
name = "figment2_cloudflare_env"
version = "0.1.0"
edition = "2021"
publish = false

[dependencies]
figment2 = "*"
serde = { version = "*", features = ["derive"] }
serde_json = "*"
worker = "*"
