[package]
name = "hyperswitch_interfaces"
version = "0.1.0"
edition = "2021"
publish = false

[dependencies]
bytes = "1"
serde_json = "1"
thiserror = "1"
error-stack = "0.4"
