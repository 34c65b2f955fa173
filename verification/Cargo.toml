[package]
name = "ngtcp2"
version = "0.1.0"
edition = "2021"
publish = false

[dependencies]
aws-lc-rs = "*"
aws-lc-sys = "*"
boring = "*"
getrandom = "*"
libc = "*"
quiche = "*"
rcgen = "*"
tokio = { version = "*", features = ["full"] }
tokio-quiche = "*"
tokio-stream = "*"
