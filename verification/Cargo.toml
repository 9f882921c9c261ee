[package]
name = "awesome_objects"
version = "0.1.0"
edition = "2021"
publish = false

[dependencies]
rlua = "=0.9.7"
rustwlc = "=0.7.0"
xcb = "=0.10.1"
