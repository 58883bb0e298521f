[package]
name = "time_tracking"
version = "0.1.0"
edition = "2021"
publish = false

[dependencies]
crossterm = "0.26"
csv = "1"
serde = "1"
serde_derive = "1"
serde-xml-rs = "0.6"
time = { version = "0.3", features = ["formatting", "local-offset"] }
