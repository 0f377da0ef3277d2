[package]
name = "softrays"
version = "0.4.0"
edition = "2021"
publish = false

[dependencies]
ultraviolet = "0.4"
rand = "=0.7.3"
image = "=0.23.14"
pbr = "=1.1.1"
