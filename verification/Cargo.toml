[package]
name = "server_agent"
version = "0.1.0"
edition = "2021"
publish = false

[dependencies]
bcrypt = "*"
bollard = "*"
futures-util = "0.3"
http-body-util = "0.1"
hyper = { version = "1", features = ["full"] }
hyper-util = { version = "0.1", features = ["full"] }
regex = "1"
reqwest = "0.12"
serde = { version = "1", features = ["derive"] }
serde_json = "1"
tokio = { version = "1", features = ["full"] }
url = "2"
