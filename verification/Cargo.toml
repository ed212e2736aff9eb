[package]
name = "iperf_exporter"
version = "0.1.0"
edition = "2021"
publish = false

[dependencies]
serde_json = "*"
serde = { version = "*", features = ["derive"] }
actix-web = "*"
actix-rt = "*"
