[package]
name = "fuse_session"
version = "0.1.0"
edition = "2021"
publish = false

[dependencies]
log = "=0.4.34"
memchr = "=2.8.3"
tokio = { version = "=1.54.1", features = ["sync", "fs", "io-util", "rt", "macros"] }
tokio-util = "=0.7.20"
zerocopy = "=0.8.63"

[dev-dependencies]
libc = "=0.2.191"
