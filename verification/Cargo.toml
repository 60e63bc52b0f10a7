[package]
name = "rabbitmq_tutorial"
version = "0.1.0"
edition = "2021"
publish = false

[dependencies]
lapin = { version = "2", default-features = false }
async-global-executor = "2"
futures-lite = "1"
tracing = "0.1"
tracing-subscriber = "0.3"
