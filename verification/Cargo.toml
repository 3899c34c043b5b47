[package]
name = "prefix_api"
version = "0.1.0"
edition = "2021"
publish = false

[dependencies]
serde_json = "=1.0.151"
sha256 = "=1.6.0"
serde = { version = "=1.0.229", features = ["derive"] }
clap = { version = "=4.6.7", features = ["derive"] }
tokio = { version = "=1.53.2", features = ["rt-multi-thread", "macros", "fs"] }
reqwest = { version = "=0.12.28", default-features = false }
log = "=0.4.34"
env_logger = "=0.11.11"
shellexpand = "=3.1.2"
subst = "0.3"
