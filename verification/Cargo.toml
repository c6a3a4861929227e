[package]
name = "razy_cwlogs"
version = "0.1.0"
edition = "2021"
publish = false

[dependencies]
anyhow = "*"
async-trait = "*"
chrono = "*"
crossterm = { version = "*", features = ["event-stream"] }
dirs-next = "*"
futures = "*"
once_cell = "*"
rusoto_core = { version = "*", default-features = false, features = ["rustls"] }
rusoto_logs = { version = "*", default-features = false, features = ["rustls"] }
thiserror = "*"
tokio = { version = "*", features = ["full"] }
tui = "*"
