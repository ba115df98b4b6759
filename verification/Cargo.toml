[package]
name = "plugin_installer"
version = "0.1.0"
edition = "2021"
publish = false

[dependencies]
dirs = "5"
netcorehost = "*"
reqwest = "0.12"
sysinfo = "0.30"
tokio = { version = "1", features = ["fs", "sync"] }
uuid = { version = "1", features = ["v4"] }
zip = { version = "2", default-features = false, features = ["deflate"] }
