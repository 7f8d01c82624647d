[package]
name = "buzzcurse"
version = "0.1.0"
edition = "2021"
publish = false

[dependencies]
buttplug = "4.0"
futures = "0.3"
futures-timer = "3.0"
rdev = "0.5"
tokio = { version = "1", features = ["io-std", "io-util", "rt-multi-thread"] }
