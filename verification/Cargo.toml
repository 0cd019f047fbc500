[package]
name = "herdr_client"
version = "0.1.0"
edition = "2021"
publish = false

[dependencies]
base64 = "0.22"
crossterm = "0.28"
ctrlc = { version = "3", features = ["termination"] }
