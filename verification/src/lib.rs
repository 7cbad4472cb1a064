//! A growable array of 64-bit signed integers whose storage is a file mapped
//! into memory, together with the fill and sum workloads that exercise it.

pub mod array;
pub mod error;
pub mod laws;
pub mod mapped;
pub mod model;
pub mod random;
pub mod workload;
