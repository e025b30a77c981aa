[package]
name = "text_viewer"
version = "0.1.0"
edition = "2021"
publish = false

[dependencies]
ropey = "=1.6.1"
ncurses = "=5.88.0"
