[package]
name = "http-type"
version = "0.1.0"
edition = "2021"
publish = false

[dependencies]
hex = "0.4"
http-compress = "*"
http-constant = "*"
serde = "1"
serde_json = "1"
serde-xml-rs = "*"
serde_urlencoded = "0.7"
tokio = { version = "1", features = ["sync"] }
