//! Verified core of a hash benchmarking toolkit: digest computation over
//! chunked input, hex and unit formatting, argument parsing and the naming
//! and scheduling rules of the benchmark programs.

pub mod text;
pub mod hex;
pub mod primitives;
pub mod hashers;
pub mod native;
pub mod unit;
pub mod data;
pub mod power;
