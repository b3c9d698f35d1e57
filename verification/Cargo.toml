[package]
name = "response_getter"
version = "0.1.0"
edition = "2021"
publish = false

[dependencies]
routing = "0.4"
