[package]
name = "x402_escrow"
version = "0.1.0"
edition = "2021"
publish = false

[dependencies]
anchor-lang = "0.31"
switchboard-on-demand = "=0.13.0"
