[package]
name = "fastembed_js"
version = "0.1.0"
edition = "2021"
publish = false

[dependencies]
fastembed = { version = "=3.14.1", default-features = false, features = ["ort-load-dynamic", "online"] }
ort-sys = "=2.0.0-rc.4"
