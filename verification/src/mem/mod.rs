//! Secret values held in memory.
//!
//! [`SecretBytes`] is the buffer that every secret lives in. A
//! [`ProtectedValue`] keeps such a buffer in an encoded form and decodes a
//! fresh copy on demand.

pub mod impl_win32;
pub mod lock;
pub mod mask;
pub mod protect;
pub mod secret;

pub use lock::{lock_mem, lock_supported, unlock_mem};
pub use mask::ByteMaskGenerator;
pub use protect::{create_protected_value, DefaultProtectedValue, ProtectedValue};
pub use secret::SecretBytes;
