[package]
name = "plane_system"
version = "0.1.0"
edition = "2021"
publish = false

[dependencies]
mavlink = "=0.10.14"
rusb = "=0.9.4"
tokio = { version = "=1.53.2", features = ["full"] }
flume = "=0.11.1"
futures = "=0.3.34"
anyhow = "=1.0.104"
chrono = "=0.4.45"
serde = { version = "=1.0.229", features = ["derive"] }
serde_json = "=1.0.151"
geo = "=0.30.0"
