[package]
name = "ifcfg"
version = "0.1.0"
edition = "2021"
publish = false

[dependencies]
libc = "0.2"
serde = { version = "1", features = ["derive"] }
serde_json = "1"
winapi = { version = "0.3", features = ["basetsd", "minwindef", "winerror", "ws2def", "ws2ipdef", "iptypes", "iphlpapi"] }
