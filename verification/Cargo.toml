[package]
name = "vmm_core"
version = "0.1.0"
edition = "2021"
publish = false

[dependencies]
anyhow = "*"
libc = "*"
log = "*"
nix = "*"
serde = { version = "*", features = ["derive"] }
serde_json = "*"
vmm-sys-util = "*"
