[package]
name = "server_monitor"
version = "0.1.0"
edition = "2021"
publish = false

[dependencies]
anyhow = "1"
chrono = "0.4"
flexi_logger = "*"
image = { version = "0.24", default-features = false, features = ["jpeg", "png"] }
imageproc = "0.23"
log = "0.4"
reqwest = { version = "0.11", default-features = false, features = ["json"] }
rusttype = "0.9"
serde = { version = "1", features = ["derive"] }
serde_json = "1"
serenity = "0.12"
tokio = { version = "1", features = ["macros", "rt-multi-thread", "time"] }
warp = "0.3"
