[package]
name = "shmempipe"
version = "0.1.0"
edition = "2021"
publish = false

[dependencies]
bytes = "1"
thiserror = "1"
tokio = { version = "1", features = ["rt", "macros", "io-util", "time", "sync"] }
