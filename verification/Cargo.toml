[package]
name = "service_supervisor"
version = "0.1.0"
edition = "2021"
publish = false

[dependencies]
ctrlc = "3"
log = "0.4"
tauri = { version = "2", default-features = false, features = ["wry"] }
ureq = { version = "2", default-features = false }
