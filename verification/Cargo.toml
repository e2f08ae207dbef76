[package]
name = "directory_filter"
version = "0.1.0"
edition = "2021"
publish = false

[dependencies]
regex = "=1.13.1"
crossbeam = "=0.3.2"
scoped_threadpool = "=0.1.9"
lazy_static = "=1.5.1"
log = "=0.4.34"
