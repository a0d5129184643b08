[package]
name = "schedule_flows"
version = "0.1.0"
edition = "2021"
publish = false

[dependencies]
serde_json = "1"
urlencoding = "2"
http_req = { version = "*", default-features = false }
