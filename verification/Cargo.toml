[package]
name = "callwatch"
version = "0.1.0"
edition = "2021"
publish = false

[dependencies]
poise = "0.6"
thiserror = "*"
tokio = { version = "1", features = ["macros", "rt-multi-thread"] }
enum-display = "*"
