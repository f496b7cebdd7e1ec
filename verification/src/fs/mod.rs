//! Files.

pub mod shared;
