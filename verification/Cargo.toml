[package]
name = "bsuir-rt-utils"
version = "0.1.0"
edition = "2021"
publish = false

[dependencies]
dircpy = "*"
expanduser = "*"
pest = "*"
pest_derive = "*"
symlink = "*"
