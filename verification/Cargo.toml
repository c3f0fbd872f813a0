[package]
name = "mcp2518fd"
version = "0.1.0"
edition = "2021"
publish = false

[dependencies]
crc = "3"
embedded-can = "0.4"
embedded-hal = "1"
embedded-hal-async = "1"
