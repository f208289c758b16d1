[package]
name = "mitsuba_rs"
version = "0.1.0"
edition = "2021"
publish = false

[dependencies]
byteorder = "1"
cgmath = "0.18"
log = "0.4"
miniz_oxide = "*"
xml-rs = "0.8"
