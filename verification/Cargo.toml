[package]
name = "stitchy_mobile"
version = "0.1.0"
edition = "2021"
publish = false

[dependencies]
jni = "0.21"
serde = { version = "1", features = ["derive"] }
serde_json = "1"
stitchy-core = "*"
