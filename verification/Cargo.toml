[package]
name = "ble_bled"
version = "0.1.0"
edition = "2021"
publish = false

[dependencies]
btleplug = "0.10"
clap = { version = "4", features = ["derive"] }
hex = "0.4"
itertools = "0.10"
pretty_env_logger = "0.4"
rand = "0.8"
tokio = { version = "1", features = ["macros", "rt-multi-thread", "time"] }
tokio-stream = "0.1"
uuid = "1"
