[package]
name = "uefi_model"
version = "0.1.0"
edition = "2021"
publish = false

[dependencies]
syn = { version = "2", features = ["full", "parsing", "printing"] }
clap = { version = "4", features = ["derive"] }
fs-err = "2"
walkdir = "2"
ovmf-prebuilt = "*"
anyhow = "1"
log = "0.4"
