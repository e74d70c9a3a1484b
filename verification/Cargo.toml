[package]
name = "chessnut_move"
version = "0.1.0"
edition = "2021"
publish = false

[dependencies]
btleplug = "*"
futures-util = "0.3"
thiserror = "*"
tokio = { version = "1", features = ["sync", "time", "rt", "macros"] }
tokio-stream = { version = "0.1", features = ["sync"] }
uuid = "1"
