[package]
name = "pc_monitor"
version = "0.1.0"
edition = "2021"
publish = false

[dependencies]
btleplug = "0.11"
futures = "0.3"
pretty_env_logger = "0.5"
serde_json = "1"
sysinfo = "0.29"
tokio = { version = "1", features = ["macros", "rt-multi-thread", "process", "io-util", "time"] }
uuid = "1"
xmltojson = "*"

[dev-dependencies]
bincode = "1.3"
serde = "1"
