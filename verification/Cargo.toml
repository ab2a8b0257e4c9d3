[package]
name = "nfs41server"
version = "0.1.0"
edition = "2021"
publish = false

[dependencies]
byteorder = "1"
rand = "*"
anyhow = "1"
log = "0.4"
async-trait = "0.1"
tokio = { version = "1", features = ["rt-multi-thread", "net", "io-util", "sync", "macros"] }
