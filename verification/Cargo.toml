[package]
name = "trsfer"
version = "0.1.0"
edition = "2021"
publish = false

[dependencies]
bincode = "=1.3.3"
clap = "=2.34.0"
env_logger = "=0.9.3"
indicatif = "=0.17.11"
log = "=0.4.34"
num_cpus = "=1.17.0"
