[package]
name = "xml_schema_model"
version = "0.1.0"
edition = "2021"
publish = false

[dependencies]
heck = "*"
log = "0.4"
proc-macro2 = "1"
quote = "1"
syn = "2"
unicode-ident = "1"
xml-rs = "0.8"
yaserde = "*"
yaserde_derive = "*"
