[package]
name = "utsushot"
version = "0.1.0"
edition = "2021"
publish = false

[dependencies]
clap = { version = "4", features = ["derive"] }
directories = "*"
serde_json = "1"
thiserror = "*"
tracing = "0.1"
tracing-subscriber = "0.3"
