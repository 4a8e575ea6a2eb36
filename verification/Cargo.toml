[package]
name = "obfs_tcp"
version = "0.1.0"
edition = "2021"
publish = false

[dependencies]
blake3 = { version = "1", features = ["pure"] }
c2-chacha = "0.3"
smol = "1"
async-dup = "1"
parking_lot = "0.11"
