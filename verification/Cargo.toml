[package]
name = "arm_interface"
version = "0.1.0"
edition = "2021"
publish = false

[dependencies]
tokio = { version = "1", features = ["full"] }
tokio-util = { version = "0.7", features = ["full"] }
serde = { version = "1", features = ["derive"] }
rmp-serde = "1"
nalgebra = "*"
thiserror = "1"
