[package]
name = "myquinn"
version = "0.1.0"
edition = "2021"
publish = false

[dependencies]
quinn = "0.6"
rcgen = "0.11"
tokio = { version = "0.2", features = ["full"] }
futures = "0.3"
anyhow = "1"
directories = "3"
tracing = "0.1"
tracing-futures = "0.2"
tracing-subscriber = "0.2"
