[package]
name = "csv_to"
version = "0.1.0"
edition = "2021"
publish = false

[dependencies]
ansi_term = "*"
codegen = "*"
csv = "*"
exitcode = "*"
glob = "*"
postgres = "*"
structopt = "*"
