[package]
name = "socket_activation"
version = "0.1.0"
edition = "2021"
publish = false

[dependencies]
clap = { version = "=4.6.7", features = ["derive"] }
env_logger = "=0.10.2"
libc = "=0.2.191"
log = "=0.4.35"
rand = "=0.8.8"
socket2 = { version = "=0.5.10", features = ["all"] }
tokio = { version = "=1.54.1", features = ["full"] }
tokio-stream = { version = "=0.1.19", features = ["net"] }
warp = "=0.3.7"
