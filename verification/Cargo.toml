[package]
name = "zfile"
version = "0.1.0"
edition = "2021"
publish = false

[dependencies]
chrono = "0.4"
dirs = "*"
gio = "*"
glib = "*"
gtk4 = "*"
open = "*"
tokio = { version = "1", features = ["sync"] }
trash = "*"
