[package]
name = "clash_verge_service_ipc"
version = "1.0.0"
edition = "2021"
publish = false

[dependencies]
anyhow = "*"
clap = { version = "*", features = ["derive"] }
flexi_logger = "*"
http = "*"
libc = "*"
log = "*"
once_cell = "*"
serde = { version = "*", features = ["derive"] }
serde_json = "*"
tokio = { version = "*", features = ["full"] }
tracing = "*"
tracing-subscriber = "*"
