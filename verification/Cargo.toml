[package]
name = "rsd_tui"
version = "0.1.0"
edition = "2021"
publish = false

[dependencies]
arboard = "=3.6.1"
dirs = "=7.0.0"
ratatui = "=0.30.2"
rpassword = "=7.5.4"
serde = "=1.0.229"
serde_json = "=1.0.151"
