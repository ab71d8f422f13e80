[package]
name = "deploy_acceptor"
version = "0.1.0"
edition = "2021"
publish = false

[dependencies]
casper-types = "*"
