[package]
name = "timestamp_finder"
version = "0.1.0"
edition = "2021"
publish = false

[dependencies]
anyhow = "=1.0.104"
clap = { version = "=4.6.7", features = ["derive"] }
env_logger = "=0.11.11"
google-cloud-googleapis = "=0.16.1"
google-cloud-spanner = "=0.33.0"
indicatif = "=0.18.6"
log = "=0.4.34"
prost-types = "=0.13.5"
time = { version = "=0.3.55", features = ["parsing", "formatting"] }
tokio = { version = "=1.53.2", features = ["rt-multi-thread", "macros", "time"] }
uuid = { version = "=1.27.0", features = ["v4"] }
