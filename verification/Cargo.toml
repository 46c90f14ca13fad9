[package]
name = "canvas_socket"
version = "0.1.0"
edition = "2021"
publish = false

[dependencies]
actix-ws = "0.3"
futures-util = "0.3"
tokio = { version = "1", features = ["sync", "time"] }
