[package]
name = "runtime_bridge"
version = "0.1.0"
edition = "2021"
publish = false

[dependencies]
jni = "0.19"
jni-utils = "0.1"
once_cell = "1"
tokio = { version = "1", features = ["rt-multi-thread", "net", "time"] }
btleplug = "0.11"
