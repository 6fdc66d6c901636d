[package]
name = "uno_r4_hal"
version = "0.1.0"
edition = "2021"
publish = false

[dependencies]
cortex-m = "=0.7.10"
critical-section = "=1.2.0"
embedded-hal = "=1.0.0"
embedded-hal-nb = "=1.0.0"
embedded-io = "=0.6.1"
fugit = "=0.3.9"
nb = "=1.1.0"
ra4m1-pac = { version = "=0.3.1", features = ["all"] }
