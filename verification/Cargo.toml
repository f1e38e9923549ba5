[package]
name = "cpp_class"
version = "0.1.0"
edition = "2021"
publish = false

[dependencies]
log = "0.4"
petgraph = "0.4"
proc-macro2 = { version = "0.4.30", default-features = false }
smol_str = { version = "0.1", default-features = false }
syn = { version = "0.15.44", default-features = false, features = ["clone-impls", "derive", "extra-traits", "full", "parsing", "printing"] }
