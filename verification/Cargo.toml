[package]
name = "salewatch"
version = "0.1.0"
edition = "2021"
publish = false

[dependencies]
base64 = "0.22"
md-5 = "0.10"
serde_json = "1"
urlencoding = "2"
serde = { version = "1", features = ["derive"] }
toml = "0.8"
ureq = { version = "2", features = ["json"] }
url = "2"
sqlx = { version = "0.8", features = ["sqlite", "runtime-tokio", "migrate"], default-features = false }
tokio = { version = "1", features = ["macros", "rt-multi-thread", "sync", "time"] }
clap = { version = "4", features = ["derive"] }
env_logger = "0.11"
log = "0.4"
chrono = "0.4"
