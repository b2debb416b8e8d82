[package]
name = "range_responder"
version = "0.1.0"
edition = "2021"
publish = false

[dependencies]
hyper = "=0.10.16"
rocket = { version = "0.5", default-features = false }
