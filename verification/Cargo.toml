[package]
name = "disk_relocator"
version = "0.1.0"
edition = "2021"
publish = false

[dependencies]
uuid = { version = "1", features = ["v4"] }
chrono = "0.4"
serde = { version = "1", features = ["derive"] }
serde_json = "1"
rusqlite = { version = "0.32", features = ["bundled"] }
fs2 = "0.4"
base64 = "0.22"
notify = "6"
sysinfo = "0.33"
