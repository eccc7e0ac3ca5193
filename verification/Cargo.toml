[package]
name = "popover_help"
version = "0.1.0"
edition = "2021"
publish = false

[dependencies]
anyhow = "1"
gdk = "0.12"
gio = "0.8"
gtk = "0.8"
