[package]
name = "dbs_cli"
version = "0.1.0"
edition = "2021"
publish = false

[dependencies]
anyhow = "=1.0.104"
async-std = "=1.13.2"
clap = { version = "=3.2.25", features = ["derive"] }
libc = "=0.2.190"
seccompiler = "=0.5.0"
serde = "=1.0.229"
serde_derive = "=1.0.229"
vmm-sys-util = "=0.15.0"
