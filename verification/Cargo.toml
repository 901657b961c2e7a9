[package]
name = "reggie"
version = "0.1.0"
edition = "2021"
publish = false

[dependencies]
bytes = "1"
futures-core = "0.3"
http = "1"
http-body = "1"
http-body-util = "0.1"
reqwest = { version = "0.12", default-features = false }
serde = "1"
serde_json = "1"
tower-service = "0.3"
