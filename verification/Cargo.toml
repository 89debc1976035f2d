[package]
name = "afxdp"
version = "0.4.0"
edition = "2021"

[dependencies]
arraydeque = "=0.4.5"
crossbeam-channel = "=0.5.17"
errno = "=0.2.8"
libbpf-sys = "=0.6.2"
libc = "=0.2.191"
rlimit = "=0.5.4"
structopt = "=0.3.26"
thiserror = "=1.0.69"
