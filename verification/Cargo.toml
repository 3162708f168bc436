[package]
name = "default_net"
version = "0.1.0"
edition = "2021"
publish = false

[dependencies]
libc = "*"
serde = { version = "*", features = ["derive"] }
