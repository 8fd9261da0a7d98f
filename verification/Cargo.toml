[package]
name = "gpu_governor"
version = "0.1.0"
edition = "2021"
publish = false

[dependencies]
anyhow = "*"
chrono = "*"
dumpsys-rs = "*"
inotify = "*"
libc = "*"
log = "*"
once_cell = "*"
regex = "*"
serde = { version = "*", features = ["derive"] }
toml = "*"
