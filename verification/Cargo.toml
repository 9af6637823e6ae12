[package]
name = "terminal_fluid_sim"
version = "0.1.0"
edition = "2021"
publish = false

[dependencies]
ratatui = "0.27"
rayon = "1"
