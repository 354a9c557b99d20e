[package]
name = "fv_common"
version = "0.1.0"
edition = "2021"
publish = false

[dependencies]
atomic-instant = "*"
libc = "0.2"
log = "0.4"
serde = { version = "1", features = ["derive"] }
serde_json = "1"
sha2 = "0.10"
