[package]
name = "hello_server"
version = "0.1.0"
edition = "2021"
publish = false

[dependencies]
http-body-util = "*"
hyper = { version = "*", features = ["http1", "server"] }
hyper-util = { version = "*", features = ["tokio"] }
tokio = { version = "*", features = ["macros", "net", "rt-multi-thread", "signal"] }
