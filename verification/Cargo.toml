[package]
name = "squishy"
version = "0.1.0"
edition = "2021"
publish = false

[dependencies]
docopt = "*"
indicatif = "*"
noodles = { version = "*", features = ["bam", "sam"] }
