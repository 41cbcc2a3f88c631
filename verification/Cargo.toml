[package]
name = "nvim_client"
version = "0.1.0"
edition = "2021"
publish = false

[dependencies]
neovim-lib = "=0.6.1"
rmp = ">=0.8.8, <0.8.11"
