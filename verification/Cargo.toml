[package]
name = "lelet"
version = "0.1.0"
edition = "2021"
publish = false

[dependencies]
crossbeam-deque = "*"
crossbeam-channel = "*"
crossbeam-utils = "*"
async-task = "*"
once_cell = "*"
