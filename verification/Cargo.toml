[package]
name = "rafter_widgets"
version = "0.1.0"
edition = "2021"
publish = false

[dependencies]
nucleo-matcher = "0.3.1"
chrono = "0.4.45"
ratatui = "0.29.0"
