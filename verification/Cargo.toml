[package]
name = "juvinil"
version = "0.1.0"
edition = "2021"

[dependencies]
regex = "1"
thiserror = "1"
anyhow = "1"
tracing = "0.1"
tracing-subscriber = "0.3"
