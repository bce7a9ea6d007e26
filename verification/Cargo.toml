[package]
name = "durabletask"
version = "0.1.0"
edition = "2021"
publish = false

[dependencies]
uuid = { version = "1", features = ["v4"] }
gethostname = "*"
serde = { version = "1", features = ["derive"] }
serde_json = "1"
async-trait = "0.1"
