[package]
name = "echo_server"
version = "0.1.0"
edition = "2021"
publish = false

[dependencies]
slab = "0.1"
mio = "0.5"
log = "0.3"
env_logger = "0.3"
