[package]
name = "qemu_fuzz_hooks"
version = "0.1.0"
edition = "2021"
publish = false

[dependencies]
libafl = { version = "=0.11.2", default-features = false, features = ["std", "derive", "llmp_compression", "rand_trait", "fork"] }
libafl_bolts = { version = "=0.11.2", default-features = false, features = ["std", "derive"] }
libafl_qemu = { version = "=0.11.2", default-features = false, features = ["aarch64", "fork", "build_libqasan"] }
