[package]
name = "cosmic_ext_tweaks"
version = "0.1.0"
edition = "2021"
publish = false

[dependencies]
nucleo = "*"
chrono = "0.4"
url = "2"
uuid = { version = "1", features = ["v4", "serde"] }
serde = { version = "1", features = ["derive"] }
serde_json = "1"
ron = "*"
dirs = "*"
reqwest = { version = "*", default-features = false, features = ["json"] }
tokio = { version = "1", features = ["rt-multi-thread", "macros"] }
open = "*"
anyhow = "1"
thiserror = "*"
log = "0.4"
pretty_env_logger = "*"
