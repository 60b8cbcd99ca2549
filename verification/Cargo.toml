[package]
name = "rocket"
version = "0.1.0"
edition = "2021"
publish = false

[dependencies]
figment = "0.10"
futures-util = "0.3"
hyper = "0.14"
r2d2 = "0.8"
tokio = { version = "1", features = ["rt", "sync", "time"] }
tracing = "0.1"
yansi = "0.5"
