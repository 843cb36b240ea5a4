[package]
name = "lost_project_shell"
version = "0.1.0"
edition = "2021"
publish = false

[dependencies]
log = "0.4"
notify-rust = { version = "4", default-features = false, features = ["d"] }
