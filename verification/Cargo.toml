[package]
name = "lsf_agent"
version = "0.1.0"
edition = "2021"
publish = false

[dependencies]
serde = { version = "1", features = ["derive"] }
serde_json = "1"
structopt = "0.3"
error-chain = "0.12"
libresolv-sys = "*"
