[package]
name = "lunatic_shim"
version = "0.1.0"
edition = "2021"
publish = false

[dependencies]
anyhow = "*"
chrono = "*"
containerd-shim = "*"
containerd-shim-wasm = "*"
libc = "*"
libcontainer = "*"
log = "*"
nix = { version = "*", features = ["process", "signal"] }
serde = { version = "*", features = ["derive"] }
serde_json = "*"
