[package]
name = "fibonacci_ivc"
version = "0.1.0"
edition = "2021"
publish = false

[dependencies]
ark-bn254 = "*"
ark-ff = "*"
ark-groth16 = "*"
ark-grumpkin = "*"
ark-r1cs-std = "*"
ark-relations = "*"
rand = "*"
