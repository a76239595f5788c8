[package]
name = "rustty"
version = "0.1.0"
edition = "2021"
publish = false

[dependencies]
vte = "=0.13.1"
eframe = { version = "=0.29.1", default-features = false, features = ["default_fonts", "glow", "x11"] }
portable-pty = "=0.8.1"
