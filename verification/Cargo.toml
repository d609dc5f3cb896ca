[package]
name = "gosub_engine"
version = "0.1.0"
edition = "2021"
publish = false

[dependencies]
anyhow = "*"
cow-utils = "*"
image = "*"
raw-window-handle = "*"
smallvec = "*"
ureq = "*"
