[package]
name = "servable"
version = "0.1.0"
edition = "2021"
publish = false

[dependencies]
image = "*"
rand = "*"
serde_urlencoded = "*"
axum = "*"
tokio = { version = "*", features = ["full"] }
tower = "*"
maud = "*"
