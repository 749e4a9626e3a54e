[package]
name = "ratatui_switch"
version = "0.1.0"
edition = "2021"
publish = false

[dependencies]
embedded-term = "=0.1.1"
