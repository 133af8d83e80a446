[package]
name = "clang-tools-installer"
version = "0.1.0"
edition = "2021"
publish = false

[dependencies]
anyhow = "1"
clap = "4"
lenient_semver = "0.4"
log = "0.4"
regex = "1"
semver = "1"
which = "*"
