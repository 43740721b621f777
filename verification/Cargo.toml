[package]
name = "tunnyd"
version = "0.1.0"
edition = "2021"
publish = false

[dependencies]
anyhow = "1"
async-trait = "0.1"
bollard = "0.16"
clap = "4"
env_logger = "0.10"
futures = "0.3"
log = "0.4"
russh = "0.39"
russh-keys = "0.38"
shlex = "1"
tokio = { version = "1", features = ["full"] }
