[package]
name = "cross_chain_yield_aggregator"
version = "0.1.0"
edition = "2021"
publish = false
