[package]
name = "vrm_scene"
version = "0.1.0"
edition = "2021"
publish = false

[dependencies]
base64 = "0.22"
nanoid = "0.4"
percent-encoding = "2"
