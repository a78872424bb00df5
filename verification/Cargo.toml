[package]
name = "miden_processor_errors"
version = "0.1.0"
edition = "2021"
publish = false

[dependencies]
miden-core = "=0.22.4"
miden-air = "=0.22.4"
miden-debug-types = "=0.22.4"
miden-utils-diagnostics = "=0.22.4"
thiserror = { version = "=2.0.21", default-features = false }
