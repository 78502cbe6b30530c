[package]
name = "apple_dev_tools_wrapper"
version = "0.1.0"
edition = "2021"

[dependencies]
clap_lex = "*"
