[package]
name = "amduda"
version = "0.1.0"
edition = "2021"
publish = false

[dependencies]
anyhow = "*"
async-trait = "*"
clap = { version = "*", features = ["derive"] }
half = "*"
libc = "*"
libloading = "*"
memmap2 = "*"
once_cell = "*"
serde = { version = "*", features = ["derive"] }
serde_json = "*"
sysinfo = "*"
