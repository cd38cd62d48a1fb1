[package]
name = "dsh"
version = "0.1.0"
edition = "2021"
publish = false

[dependencies]
regex = "=1.13.1"
serde_json = "=1.0.154"
serde = { version = "=1.0.229", features = ["derive"] }
termimad = "=0.35.5"
clap = "=4.6.7"
chrono = "=0.4.45"
rcgen = "=0.14.10"
whoami = "=2.1.3"
itertools = "=0.14.0"
lazy_static = "=1.5.1"
log = "=0.4.35"
dsh_api = "=0.11.1"
tokio = { version = "=1.54.1", features = ["rt-multi-thread"] }
