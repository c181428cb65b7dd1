[package]
name = "sd_card"
version = "0.1.0"
edition = "2021"
publish = false

[dependencies]
embedded-hal = "0.2.7"
embedded-sdmmc = "0.4.0"
