[package]
name = "titan_engine"
version = "0.1.0"
edition = "2021"
publish = false

[dependencies]
ash = "0.33"
ash-window = "0.7"
jni = "0.19"
lazy_static = "1"
log = "0.4"
pretty_env_logger = "0.4"
raw-window-handle = "0.3"
winit = "0.25"
