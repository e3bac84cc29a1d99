[package]
name = "playground_ui"
version = "0.1.0"
edition = "2021"
publish = false

[dependencies]
iron = "=0.6.1"
mount = "=0.4.0"
bodyparser = "=0.8.0"
serde = "1"
serde_derive = "1"
serde_json = "1"
log = "0.4"
env_logger = "=0.10.2"
mktemp = "=0.5.1"
unicase = "1"
