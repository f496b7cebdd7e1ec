//! Utilities for programs that hold secrets.
//!
//! - [`mem`] keeps secret bytes in buffers that are pinned in RAM where the
//!   platform allows it, wiped when they are released, and stored in an
//!   obfuscated form while they are not in use.
//! - [`vec`] extends byte vectors with methods that wipe the memory they
//!   let go of.
//! - [`cache`] is a small cache of shared values that lets the least
//!   recently used entry leave when it is full.
//! - [`fs`] names the lock files that guard shared files.

pub mod cache;
pub mod fs;
pub mod mem;
pub mod vec;
