[package]
name = "window_session"
version = "0.1.0"
edition = "2021"

[dependencies]
gl = "*"
glfw = "*"
