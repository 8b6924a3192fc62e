[package]
name = "rumblr"
version = "0.1.0"
edition = "2021"
publish = false

[dependencies]
json = "=0.12.4"
regex = "=1.13.1"
oauth-client = "=0.8.0"
