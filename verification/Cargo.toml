[package]
name = "external_streams"
version = "0.1.0"
edition = "2021"
publish = false

[dependencies]
thiserror = "2"
derive_more = { version = "2", features = ["display"] }
