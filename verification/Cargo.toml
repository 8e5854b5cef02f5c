[package]
name = "broker_outer_api"
version = "0.1.0"
edition = "2021"
publish = false

[dependencies]
bytes = "1"
cheetah-string = "0.1"
dns-lookup = "2"
tokio = { version = "1", features = ["rt", "macros"] }
tracing = "0.1"
