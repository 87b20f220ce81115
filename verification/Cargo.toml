[package]
name = "embassy-mspm0"
version = "0.1.0"
edition = "2021"
publish = false

[dependencies]
cortex-m = "0.7"
critical-section = "1"
embassy-hal-internal = "*"
embassy-sync = "*"
embassy-executor = "*"
embassy-embedded-hal = "*"
embedded-hal = "1"
embedded-hal-async = "1"
embedded-storage = "0.3"
embedded-storage-async = "0.4"
