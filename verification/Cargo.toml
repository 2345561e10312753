[package]
name = "oscavmgr"
version = "0.1.0"
edition = "2021"
publish = false

[dependencies]
regex = "=1.13.1"
rosc = "=0.10.1"
glam = "=0.34.1"
serde = { version = "=1.0.229", features = ["derive"] }
serde_json = "=1.0.154"
clap = { version = "=4.6.7", features = ["derive"] }
log = "=0.4.34"
env_logger = "=0.11.11"
colored = "=2.2.0"
indicatif = "=0.18.6"
indicatif-log-bridge = "=0.2.3"
mdns-sd = "=0.21.6"
reqwest = { version = "=0.13.5", default-features = false, features = ["blocking"] }
openxr = { version = "=0.22.0", default-features = false }
