[package]
name = "aster"
version = "0.1.0"
edition = "2021"

[dependencies]
syntex_syntax = "=0.59.1"
