[package]
name = "lecoo_control"
version = "0.1.0"
edition = "2021"
publish = false

[dependencies]
bincode = "2"
egui = { version = "0.27", default-features = false, features = ["default_fonts"] }
interprocess = "2"
log = "0.4"
rusqlite = { version = "*", default-features = false }
simplelog = { version = "0.12", default-features = false }
systemd-journal-logger = "2"
tiny_http = { version = "0.12", default-features = false }
ureq = { version = "3", default-features = false, features = ["rustls"] }
zbus = { version = "5", default-features = false, features = ["async-io", "blocking-api"] }
