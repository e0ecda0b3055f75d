[package]
name = "prowl_queue"
version = "0.1.0"
edition = "2021"
publish = false

[dependencies]
log = "0.4"
prowl = "*"
thiserror = "1"
tokio = { version = "1", features = ["sync", "time"] }
