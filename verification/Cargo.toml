[package]
name = "watchy"
version = "0.1.0"
edition = "2021"
publish = false

[dependencies]
rounded-div = "*"
bma423 = "*"
embedded-hal = "*"
gdeh0154d67 = "*"
