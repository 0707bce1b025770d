[package]
name = "nekobot"
version = "0.1.0"
edition = "2021"
publish = false

[dependencies]
anyhow = "=1.0.104"
clap = { version = "=4.6.7", features = ["derive"] }
dptree = "=0.5.1"
log = "=0.4.34"
pretty_env_logger = "=0.5.0"
redis = { version = "=1.7.1", features = ["tokio-comp"] }
reqwest = { version = "=0.12.28", features = ["json"] }
serde = { version = "=1.0.229", features = ["derive"] }
serde_json = "=1.0.151"
takecell = "=0.1.1"
teloxide = "=0.17.0"
tokio = { version = "=1.53.2", features = ["macros", "rt-multi-thread", "sync", "time"] }
toml = "=1.1.6"
