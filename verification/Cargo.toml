[package]
name = "taskplex_supervisor"
version = "0.1.0"
edition = "2021"
publish = false

[dependencies]
tokio = { version = "1", default-features = false, features = ["sync", "time", "process", "io-util", "rt", "rt-multi-thread", "macros"] }
