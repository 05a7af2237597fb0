[package]
name = "remotex"
version = "0.1.0"
edition = "2021"
publish = false

[dependencies]
actix-web = { version = "4", default-features = false, features = ["macros"] }
anyhow = "1"
config = { version = "0.13", default-features = false, features = ["yaml"] }
env_logger = "0.10"
log = "0.4"
serde = { version = "1", features = ["derive"] }
serde_yaml = "0.9"
structopt = "0.3"
tokio = { version = "1", features = ["process", "rt-multi-thread", "macros"] }
