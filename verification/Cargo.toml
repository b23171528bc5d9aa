[package]
name = "gpu_alloc_vulkanalia"
version = "0.1.0"
edition = "2021"
publish = false

[dependencies]
vulkanalia = "*"
gpu-alloc-types = "*"
smallvec = "*"
