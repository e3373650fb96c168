[package]
name = "knock_come"
version = "0.918.0"
edition = "2021"
publish = false

[dependencies]
rand = "0.9"
flume = "0.11"
tokio = { version = "1", features = ["rt-multi-thread", "macros", "time"] }
chrono = "0.4"
