[package]
name = "xcap_sck"
version = "0.1.0"
edition = "2021"
publish = false

[dependencies]
cidre = "*"
core-foundation = "*"
core-graphics = "*"
image = { version = "*", default-features = false, features = ["png"] }
once_cell = "*"
tokio = { version = "*", features = ["rt-multi-thread"] }
