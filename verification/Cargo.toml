[package]
name = "netvisor"
version = "0.1.0"
edition = "2021"
publish = false

[dependencies]
uuid = { version = "=1.29.1", features = ["v4", "serde"] }
chrono = { version = "=0.4.45", features = ["serde"] }
url = "=2.5.8"
urlencoding = "=2.1.3"
email_address = "=0.2.9"
serde = { version = "=1.0.229", features = ["derive"] }
serde_json = "=1.0.154"
cidr = { version = "=0.3.2", features = ["serde"] }
clap = { version = "=4.6.7", features = ["derive"] }
tokio = { version = "=1.54.1", features = ["rt-multi-thread", "macros", "signal"] }
anyhow = "=1.0.104"
sqlx = { version = "=0.8.6", default-features = false, features = ["postgres", "runtime-tokio", "uuid", "chrono", "json"] }
futures = "=0.3.34"
