[package]
name = "check_for_license"
version = "0.1.0"
edition = "2021"
publish = false

[dependencies]
anyhow = "=1.0.104"
kankyo = "=0.3.0"
log = "=0.4.34"
pretty_env_logger = "=0.5.0"
reqwest = { version = "=0.13.5", default-features = false, features = ["json", "form", "query"] }
serde = { version = "=1.0.229", features = ["derive"] }
serde_json = "=1.0.151"
tokio = { version = "=1.53.2", features = ["macros", "rt-multi-thread", "time"] }
