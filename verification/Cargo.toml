[package]
name = "sheet_decode"
version = "0.1.0"
edition = "2021"
publish = false

[dependencies]
smallmap = "1"
serde = "1"
google-sheets4 = "5"
tracing = "0.1"
