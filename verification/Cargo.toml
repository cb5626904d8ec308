[package]
name = "rudoku"
version = "0.1.0"
edition = "2021"
publish = false

[dependencies]
sudoku = "*"
rayon = "*"
clap = "*"
