[package]
name = "udp_sink"
version = "0.1.0"
edition = "2021"
publish = false

[dependencies]
http = "*"
bytes = "*"
serde = { version = "*", features = ["derive"] }
tokio = { version = "*", features = ["net", "time", "rt"] }
futures = "*"
