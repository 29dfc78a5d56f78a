[package]
name = "sreader"
version = "0.1.0"
edition = "2021"
publish = false

[dependencies]
color-eyre = "0.6"
crossterm = "0.27"
futures = "0.3"
log = "0.4"
ratatui = "0.24"
serde = { version = "1", features = ["derive"] }
tokio = { version = "1", features = ["rt-multi-thread", "macros", "sync", "time"] }
tracing = "0.1"
tui = "0.19"
tui-input = "0.8"
