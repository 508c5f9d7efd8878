[package]
name = "niri_workspaces_enhanced"
version = "0.1.0"
edition = "2021"
publish = false

[dependencies]
async-channel = "*"
env_logger = "*"
log = "*"
niri-ipc = "*"
serde = { version = "*", features = ["derive"] }
waybar-cffi = "*"
