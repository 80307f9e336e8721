[package]
name = "swapi"
version = "0.1.0"
edition = "2021"
publish = false

[dependencies]
lru_time_cache = "=0.11.11"
pikkr = "=0.14.0"
uuid = { version = "=1.29.0", features = ["v4"] }
crossbeam-channel = "=0.5.17"
serde = { version = "=1.0.229", features = ["derive"] }
serde_json = "=1.0.154"
actix = "=0.5.8"
actix-web = { version = "=0.6.15", default-features = false }
futures = "=0.1.31"
failure = "=0.1.8"
clap = "=2.34.0"
env_logger = "=0.5.13"
log = "=0.4.34"
app_dirs = "=1.2.1"
