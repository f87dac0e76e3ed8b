[package]
name = "ros2_client"
version = "0.1.0"
edition = "2021"
publish = false

[dependencies]
futures = "0.3"
log = "0.4"
rustdds = "*"
serde = { version = "1", features = ["derive"] }
serde_repr = "0.1"
tracing = "0.1"
uuid = { version = "1", features = ["v4"] }
