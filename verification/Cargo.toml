[package]
name = "camera_carriage"
version = "0.1.0"
edition = "2021"
publish = false

[dependencies]
rppal = "0.17"
