[package]
name = "pepper_shaper"
version = "0.1.0"
edition = "2021"
publish = false

[dependencies]
android_logger = "0.13"
jni = "0.21"
log = "0.4"
num_cpus = "1"
parking_lot = "0.12"
