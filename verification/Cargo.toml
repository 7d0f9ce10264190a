[package]
name = "tegra_spi"
version = "0.1.0"
edition = "2021"
publish = false

[dependencies]
register = "=0.5.1"
