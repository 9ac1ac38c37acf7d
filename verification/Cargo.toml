[package]
name = "airshare"
version = "0.1.0"
edition = "2021"
publish = false

[dependencies]
chrono = "*"
dirs = "*"
get_if_addrs = "*"
hostname = "*"
mac_address = "*"
mime_guess = "*"
semver = "*"
serde = { version = "*", features = ["derive"] }
serde_json = "*"
sysinfo = "*"
uuid = { version = "*", features = ["v4"] }
