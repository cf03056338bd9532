[package]
name = "hextime"
version = "0.1.0"
edition = "2021"
publish = false

[dependencies]
crossterm = "0.19"
structopt = "0.3"
