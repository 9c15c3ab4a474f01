[package]
name = "pcb_render"
version = "0.1.0"
edition = "2021"
publish = false

[dependencies]
anyhow = "=1.0.104"
axoupdater = { version = "=0.10.3", features = ["blocking"] }
clap = { version = "=4.6.7", features = ["derive"] }
colored = "=3.1.1"
dirs = "=7.0.0"
env_logger = "=0.11.11"
log = "=0.4.35"
open = "=5.4.5"
serde = { version = "=1.0.229", features = ["derive"] }
serde_json = "=1.0.154"
tempfile = "=3.27.0"
zip = { version = "=9.2.2", default-features = false, features = ["deflate"] }
