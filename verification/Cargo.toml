[package]
name = "rscreenrec"
version = "0.1.0"
edition = "2021"
publish = false

[dependencies]
mime_guess = "=2.0.5"
serde = { version = "=1.0.229", features = ["derive"] }
serde_json = "=1.0.154"
tokio = { version = "=1.54.1", features = ["full"] }
axum = "=0.8.9"
tower-http = { version = "=0.7.1", features = ["cors"] }
async-stream = "=0.3.6"
bytes = "=1.12.1"
ashpd = { version = "=0.13.13", features = ["screencast"] }
rfd = "=0.17.2"
rust-embed = "=8.13.0"
