[package]
name = "termcal"
version = "0.1.0"
edition = "2021"
publish = false

[dependencies]
anyhow = "1"
bpaf = "0.9"
jiff = "0.2"
owo-colors = "4"
