[package]
name = "kunai"
version = "0.1.0"
edition = "2021"
publish = false

[dependencies]
anyhow = "*"
clap = { version = "*", features = ["derive"] }
env_logger = "*"
gene = "*"
hex = "*"
libc = "*"
log = "*"
md5 = "*"
procfs = "*"
serde = { version = "*", features = ["derive"] }
serde_json = "*"
sha1 = "*"
sha2 = "*"
uuid = "*"
