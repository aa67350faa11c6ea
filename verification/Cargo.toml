[package]
name = "fly_ruler"
version = "0.1.0"
edition = "2021"
publish = false

[dependencies]
serde = { version = "1", features = ["derive"] }
toml = "*"
libloading = "*"
libc = "*"
log = "*"
