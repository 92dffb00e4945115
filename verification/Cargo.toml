[package]
name = "item_client"
version = "0.1.0"
edition = "2021"
publish = false

[dependencies]
lazy_static = "1"
pilota = "*"
tokio = { version = "1", features = ["macros", "rt-multi-thread", "time"] }
tracing = "0.1"
tracing-subscriber = "0.3"
volo = "*"
