[package]
name = "dotter_actions"
version = "0.1.0"
edition = "2021"
publish = false

[dependencies]
anyhow = "1"
crossterm = "*"
handlebars = "*"
log = "0.4"
