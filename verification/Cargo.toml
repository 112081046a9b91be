[package]
name = "h2frame"
version = "0.1.0"
edition = "2021"
publish = false

[dependencies]
bitflags = "2"
hpack = "0.3"
tokio = { version = "1", features = ["io-util", "net"] }
tokio-boring = "*"
