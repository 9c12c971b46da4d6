[package]
name = "witchfile"
version = "0.1.0"
edition = "2021"
publish = false

[dependencies]
clap = "*"
colored = "*"
ctrlc = "*"
dirs = "*"
flexi_logger = "*"
log = "*"
prettytable-rs = "*"
rayon = "*"
