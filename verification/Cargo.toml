[package]
name = "cbf_chrome"
version = "0.1.0"
edition = "2021"
publish = false

[dependencies]
async-channel = "2"
async-process = "2"
cursor-icon = "1"
futures-lite = "2"
libloading = "0.8"
thiserror = "2"
