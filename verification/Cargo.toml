[package]
name = "ws_console"
version = "0.1.0"
edition = "2021"
publish = false

[dependencies]
http = "1"
tokio = { version = "1", features = ["macros", "rt-multi-thread", "net", "sync"] }
tokio-websockets = { version = "*", features = ["client", "fastrand", "sha1_smol"] }
futures-util = { version = "0.3", features = ["sink"] }
crossterm = "0.28"
ratatui = "0.29"
color-eyre = "0.6"
