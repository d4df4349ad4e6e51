[package]
name = "txn_db"
version = "0.1.0"
edition = "2021"
publish = false

[dependencies]
libc = "0.2"
librocksdb-sys = { version = "*", default-features = false }
