[package]
name = "aralez"
version = "0.1.0"
edition = "2021"
publish = false

[dependencies]
http = "1"
serde_json = "1"
tokio = { version = "1", features = ["sync", "time", "rt"] }
log = "0.4"
log4rs = "1"
prometheus = "*"
pingora-http = "*"
pingora-proxy = "*"
pingora-cache = "*"
mimalloc = "*"
tikv-jemallocator = "*"
windows-sys = { version = "*", features = ["Win32_System_Threading", "Win32_System_ProcessStatus"] }
