[package]
name = "testruct_ui"
version = "0.1.0"
edition = "2021"
publish = false

[dependencies]
uuid = { version = "1", features = ["v4"] }
once_cell = "1"
chrono = "0.4"
dirs = "*"
tracing = "0.1"
