[package]
name = "machine"
version = "0.1.0"
edition = "2021"
publish = false

[dependencies]
anyhow = "1"
bcd-numbers = "*"
chrono = "*"
clap = { version = "4", features = ["derive"] }
colored = "*"
corosensei = "*"
env_logger = "*"
gametime = "*"
genawaiter = "*"
keyboard-types = "*"
lazy_static = "*"
log = "*"
num = "*"
serde = { version = "1", features = ["derive"] }
serde_derive = "1"
thiserror = "*"
toml = "*"
