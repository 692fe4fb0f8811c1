[package]
name = "gateway"
version = "0.1.0"
edition = "2021"
publish = false

[dependencies]
axum = "0.5"
fqdn = "0.3"
http = "0.2"
instant-acme = "0.1"
serde = { version = "1", features = ["derive"] }
serde_json = "1"
tokio = { version = "1", features = ["sync"] }
tower-http = { version = "0.3", features = ["trace"] }
tracing = "0.1"
