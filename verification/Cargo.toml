[package]
name = "driver_lifecycle"
version = "0.1.0"
edition = "2021"
publish = false

[dependencies]
fantoccini = "*"
serde_json = "*"
tokio = { version = "*", features = ["macros", "rt-multi-thread", "time"] }
