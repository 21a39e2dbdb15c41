[package]
name = "svd_cli"
version = "0.1.0"
edition = "2021"
publish = false

[dependencies]
anyhow = "=1.0.104"
svdtools = "=0.5.0"
log = "*"
env_logger = "*"
kstring = ">=2.0.0, <2.0.3"
