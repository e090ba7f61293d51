[package]
name = "command_pool"
version = "0.1.0"
edition = "2021"
publish = false

[dependencies]
argh = "*"
humantime = "*"
tokio = { version = "1", features = ["macros", "process", "rt-multi-thread", "time"] }
