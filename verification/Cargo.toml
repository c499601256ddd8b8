[package]
name = "natural_tts"
version = "0.1.0"
edition = "2021"
publish = false

[dependencies]
percent-encoding = "*"
minreq = "*"
msedge-tts = "*"
rodio = "*"
tts = "*"
pyo3 = "*"
