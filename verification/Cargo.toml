[package]
name = "gio_futures"
version = "0.1.0"
edition = "2021"
publish = false

[dependencies]
futures = "*"
gio = "*"
glib = "*"
pin-project = "*"
