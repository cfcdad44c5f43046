[package]
name = "ldap_parser"
version = "0.5.0"
edition = "2021"
publish = false

[dependencies]
asn1-rs = "0.7"
der-parser = "10"
nom = "7"
rusticata-macros = "4"
thiserror = "2"
