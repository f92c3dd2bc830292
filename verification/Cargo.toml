[package]
name = "fern"
version = "0.1.0"
edition = "2021"
publish = false

[dependencies]
log = "0.4"
chrono = "0.4"
colored = "2"
libc = "0.2"
reopen = { version = "1", features = ["signals"] }
syslog = "6"
