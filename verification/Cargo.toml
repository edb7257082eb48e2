[package]
name = "xortun"
version = "0.1.0"
edition = "2021"
publish = false

[dependencies]
clap = { version = "*", features = ["derive"] }
tokio = { version = "*", features = ["rt-multi-thread", "net", "io-util"] }
tokio-tun = "*"
