[package]
name = "serbo"
version = "0.1.0"
edition = "2021"
publish = false

[dependencies]
rand = "=0.7.3"
rocket = { version = "0.5", features = ["json"] }
