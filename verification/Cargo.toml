[package]
name = "file_explorer"
version = "0.1.0"
edition = "2021"
publish = false

[dependencies]
anyhow = "1"
open = "5"
relm4 = "0.8"
tracker = "0.2"
