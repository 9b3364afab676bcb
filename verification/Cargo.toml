[package]
name = "nus_bridge"
version = "0.1.0"
edition = "2021"
publish = false

[dependencies]
bluest = "*"
clap = { version = "4", features = ["derive"] }
futures-util = "0.3"
tokio = { version = "1", features = ["macros", "rt-multi-thread", "time"] }
