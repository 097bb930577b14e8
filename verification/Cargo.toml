[package]
name = "justrunmydebugger"
version = "0.1.0"
edition = "2021"
publish = false

[dependencies]
regex = "=1.13.1"
walkdir = "=2.5.0"
which = "=8.0.6"
sysinfo = "=0.39.6"
threadpool = "=1.8.1"
serde = { version = "=1.0.229", features = ["derive"] }
serde_repr = "=0.1.21"
serde_json = "1"
confy = "=2.0.0"
log = "=0.4.34"
env_logger = "=0.11.11"
