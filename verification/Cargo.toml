[package]
name = "nmrs-gui"
version = "0.1.0"
edition = "2021"
publish = false

[dependencies]
anyhow = "*"
clap = { version = "*", features = ["derive"] }
glib = "*"
gtk4 = "*"
nmrs = "*"
