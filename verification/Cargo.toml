[package]
name = "uart_model"
version = "0.1.0"
edition = "2021"
publish = false

[dependencies]
lazy_static = "1.4"

[dev-dependencies]
bitstream-io = "2"
