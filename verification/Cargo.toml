[package]
name = "line_shell"
version = "0.1.0"
edition = "2021"
publish = false

[dependencies]
crossterm = { version = "=0.29.0", features = ["event-stream"] }
futures = "=0.3.34"
log = { version = "=0.4.34", features = ["std"] }
once_cell = "=1.21.4"
tokio = { version = "=1.54.1", features = ["rt", "sync"] }
