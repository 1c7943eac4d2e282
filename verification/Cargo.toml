[package]
name = "waybackmachine_client"
version = "0.1.0"
edition = "2021"
publish = false

[dependencies]
url = "2"
chrono = "0.4"
serde_json = "1"
log = "0.4"
env_logger = "0.11"
clap = "4"
regex = "1"
lopdf = "*"
tokio = { version = "1", features = ["macros", "rt-multi-thread", "time"] }
reqwest = { version = "0.12", default-features = false }
