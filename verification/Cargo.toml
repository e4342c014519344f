[package]
name = "rtplot"
version = "0.1.0"
edition = "2021"
publish = false

[dependencies]
slice-deque = "=0.3.0"
num = "=0.2.1"
cgmath = "=0.17.0"
itertools-num = "=0.1.3"
glium = "=0.26.0"
glium_text_rusttype = "*"
lyon = "=0.14.2"
ttf-noto-sans = "=0.1.2"
