[package]
name = "video_converter"
version = "0.1.0"
edition = "2021"
publish = false

[dependencies]
iced = "=0.4.2"
iced_native = "=0.5.1"
