[package]
name = "xsd_types"
version = "0.1.0"
edition = "2021"
publish = false

[dependencies]
iref = "3"
num-bigint = "0.4"
num-traits = "0.2"
ordered-float = "4"
pretty_dtoa = "0.3"
static-iref = "3"
thiserror = "1.0"
