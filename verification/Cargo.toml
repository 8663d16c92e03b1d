[package]
name = "lance_datafusion"
version = "0.1.0"
edition = "2021"
publish = false

[dependencies]
datafusion = { version = "*", default-features = false }
futures = "*"
tokio = { version = "*", default-features = false, features = ["rt"] }
