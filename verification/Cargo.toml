[package]
name = "noria_operator"
version = "0.1.0"
edition = "2021"
publish = false

[dependencies]
hex = "=0.4.3"
roperator = "=0.3.0"
log = "=0.4.34"
env_logger = "=0.11.11"
structopt = "=0.3.26"
serde = { version = "=1.0.229", features = ["derive"] }
