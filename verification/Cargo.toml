[package]
name = "fs_directory"
version = "0.1.0"
edition = "2021"
publish = false

[dependencies]
ownedbytes = "*"
tantivy-common = "*"
