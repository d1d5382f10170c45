[package]
name = "squeak"
version = "0.1.0"
edition = "2021"
publish = false

[dependencies]
serde_json = "1"
anyhow = "1"
thiserror = "2"
ratatui = "0.29"
rustix = { version = "0.38", features = ["event"] }
libc = "0.2"
ureq = { version = "2", features = ["json"] }
