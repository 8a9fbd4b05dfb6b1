[package]
name = "ssr_core"
version = "0.1.0"
edition = "2021"
publish = false

[dependencies]
v8 = "*"
axum = "*"
tokio = { version = "*", features = ["full"] }
tower-http = { version = "*", features = ["fs"] }
serde = { version = "*", features = ["derive"] }
serde_json = "*"
