[package]
name = "widots"
version = "0.1.0"
edition = "2021"
publish = false

[dependencies]
regex = "=1.13.1"
dirs = "=7.0.0"
yaml-rust2 = "=0.13.0"
inquire = "=0.9.4"
fern = { version = "=0.7.1", features = ["colored"] }
log = "=0.4.35"
chrono = "=0.4.45"
toml = "=1.1.8"
serde = { version = "=1.0.229", features = ["derive"] }
whoami = "=1.6.1"
tempfile = "=3.27.0"
walkdir = "=2.5.0"
