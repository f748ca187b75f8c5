[package]
name = "brother_ql"
version = "0.1.0"
edition = "2021"
publish = false

[dependencies]
image = { version = "=0.22.5", default-features = false, features = ["png_codec"] }
rusttype = "=0.8.3"
rusb = "0.9"
