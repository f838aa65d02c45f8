[package]
name = "dire"
version = "0.1.0"
edition = "2021"
publish = false

[dependencies]
index_vec = "*"
smallvec = "*"
string-interner = "*"
display_adapter = "*"
