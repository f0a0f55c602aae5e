[package]
name = "vessels"
version = "0.1.0"
edition = "2021"
publish = false

[dependencies]
futures = "0.3"
lazy_static = "1"
serde = "1"
tokio = { version = "1", features = ["rt"] }
void = "1"
wasmer-runtime = "1.0.1"
