[package]
name = "git_author_rewrite"
version = "0.1.0"
edition = "2021"
publish = false

[dependencies]
console = "*"
dialoguer = "*"
which = "*"
