[package]
name = "fly_ruler_core"
version = "0.1.0"
edition = "2021"
publish = false

[dependencies]
libc = "*"
libloading = "*"
log = "*"
serde = { version = "*", features = ["derive"] }
toml = "*"
