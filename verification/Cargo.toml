[package]
name = "queue_dashboard"
version = "0.1.0"
edition = "2021"
publish = false

[dependencies]
rand = "0.8"
gtk4 = "*"
glib = "*"
postgres = "*"
serde = { version = "*", features = ["derive"] }
serde_json = "*"
dirs = "*"
