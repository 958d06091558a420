[package]
name = "delta_fusion"
version = "0.1.0"
edition = "2021"
publish = false

[dependencies]
datafusion = { version = "=55.1.0", default-features = false, features = ["sql"] }
tokio = { version = "*", default-features = false, features = ["rt-multi-thread", "macros"] }
