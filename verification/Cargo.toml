[package]
name = "ssd1351"
version = "0.1.0"
edition = "2021"
publish = false

[dependencies]
embedded-hal = "*"
display-interface = "*"
display-interface-spi = "*"
embedded-graphics-core = "*"
