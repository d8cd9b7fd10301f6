[package]
name = "eq_bridge"
version = "0.1.0"
edition = "2021"
publish = false

[dependencies]
jni = "0.21"
dioxus = "0.4"
