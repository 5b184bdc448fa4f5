[package]
name = "markov_simulator"
version = "0.1.0"
edition = "2021"
publish = false

[dependencies]
ndarray = "0.17.2"
rand = "0.9"
rand_distr = "0.5"
scirs2-linalg = "0.5.0"
