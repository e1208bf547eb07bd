[package]
name = "col"
version = "0.1.0"
edition = "2021"
publish = false

[dependencies]
tokio = { version = "1", features = ["rt-multi-thread"] }
tokio-socketcan = "*"
futures-util = "0.3"
futures-timer = "3"
parse_int = "*"
regex = "1"
