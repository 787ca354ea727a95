[package]
name = "tbl"
version = "0.1.0"
edition = "2021"
publish = false

[dependencies]
anyhow = "=1.0.104"
axum = "=0.7.9"
axum-server = { version = "=0.7.3", features = ["tls-rustls"] }
base64 = "=0.22.1"
clap = { version = "=4.6.7", features = ["derive"] }
dirs = "=5.0.1"
hex = "=0.4.3"
rand = "=0.8.8"
serde = { version = "=1.0.229", features = ["derive"] }
serde_json = "=1.0.154"
serde_yaml = "=0.9.34"
tokio = { version = "=1.54.1", features = ["full"] }
toml = "=0.8.23"
tower-http = { version = "=0.5.2", features = ["fs"] }
webbrowser = "=1.2.5"
