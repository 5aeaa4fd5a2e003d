[package]
name = "midimon"
version = "0.2.0"
edition = "2021"
publish = false

[dependencies]
rtrb = "=0.4.0"
chrono = "=0.4.45"
