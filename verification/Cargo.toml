[package]
name = "deflect"
version = "0.1.0"
edition = "2021"
publish = false

[dependencies]
addr2line = "0.19"
anyhow = "1"
backtrace = "0.3"
gimli = "0.27"
memmap2 = "0.5"
object = "0.30"
rustc-demangle = "0.1"
thiserror = "1"
