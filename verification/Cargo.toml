[package]
name = "xsched"
version = "0.1.0"
edition = "2021"
publish = false

[dependencies]
ctrlc = "3"
num = "0.4"
serde = { version = "1", features = ["derive"] }
serde_json = "1"
uuid = { version = "0.8", features = ["v4", "serde"] }
