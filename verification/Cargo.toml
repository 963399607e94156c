[package]
name = "cranelift_bump"
version = "0.1.0"
edition = "2021"
publish = false

[dependencies]
json = "*"
reqwest = { version = "*", default-features = false }
tokio = { version = "*", default-features = false, features = ["rt-multi-thread", "macros"] }
