[package]
name = "server"
version = "0.1.0"
edition = "2021"
publish = false

[dependencies]
axum = "0.6"
tokio = { version = "1", features = ["rt-multi-thread", "net", "time"] }

[dev-dependencies]
hyper = "0.14"
tower = { version = "0.4", features = ["util"] }
