[package]
name = "panopticon-tui"
version = "0.1.0"
edition = "2021"
publish = false

[dependencies]
bytes = "=1.12.1"
chrono = "=0.4.45"
crossterm = "=0.25.0"
failure = "=0.1.8"
humantime = "=2.4.0"
jmx = "*"
redis-protocol = "=2.0.0"
reqwest = { version = "=0.11.27", default-features = false, features = ["json"] }
serde = { version = "=1.0.229", features = ["derive"] }
serde_json = "=1.0.154"
structopt = "=0.3.26"
tokio = { version = "=1.54.1", features = ["rt-multi-thread", "macros", "net", "io-util"] }
tui = "=0.19.0"
