[package]
name = "speedtest_influxdb"
version = "0.1.0"
edition = "2021"
publish = false

[dependencies]
url = "2"
anyhow = "1"
async-trait = "0.1"
chrono = "0.4"
clap = { version = "4", features = ["derive", "env"] }
dotenv = "0.15"
influxdb2 = "0.5"
log = "0.4"
serde = { version = "1", features = ["derive"] }
serde_json = "1"
simple_logger = "5"
tokio = { version = "1", features = ["rt-multi-thread", "macros", "process", "time"] }
tokio-cron-scheduler = "0.13"
tokio-stream = "0.1"
