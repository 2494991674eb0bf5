[package]
name = "ntfs_attribute"
version = "0.1.0"
edition = "2021"
publish = false

[dependencies]
binread = "2"
