[package]
name = "udp_echo"
version = "0.1.0"
edition = "2021"
publish = false

[dependencies]
env_logger = "*"
glommio = "*"
log = "*"
monoio = "*"
tokio = { version = "*", features = ["macros", "net", "rt-multi-thread", "time"] }
