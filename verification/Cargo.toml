[package]
name = "llvm_jit"
version = "0.1.0"
edition = "2021"
publish = false

[dependencies]
libc = "=0.2.191"
llvm-sys = { version = "=140.1.3", features = ["prefer-dynamic"] }
