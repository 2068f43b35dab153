[package]
name = "nexa_gateway"
version = "0.1.0"
edition = "2021"
publish = false

[dependencies]
chrono = "*"
serde_json = "*"
serde = { version = "*", features = ["derive"] }
reqwest = { version = "*", default-features = false, features = ["json"] }
tokio = { version = "*", features = ["full"] }
tokio-tungstenite = "*"
futures-util = "*"
sysinfo = "*"
