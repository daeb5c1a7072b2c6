[package]
name = "lagrappe"
version = "0.1.0"
edition = "2021"
publish = false

[dependencies]
dirs = "5"
env_logger = "0.11"
git2 = "0.19"
libloading = "0.8"
log = "0.4"
notify = "6"
serde = { version = "1", features = ["derive"] }
serde_json = "1"
tokio = { version = "1", features = ["macros", "rt-multi-thread", "sync"] }
toml = "0.8"
