[package]
name = "rdf_callback"
version = "0.1.0"
edition = "2021"
publish = false

[dependencies]
oxttl = "0.2"
oxrdf = "0.3"
oxiri = "0.2"
